use vstd::prelude::*;
use crate::color::{Rgb, Rgba};
use crate::color_table::{
    Color, COLOR_COUNT, color_index, lower_name_at, lowercase_name_spec, rgb_spec,
    lower_name_at_index, lemma_color_index_injective,
};
use crate::text::{ascii_lower, push_str, string_with_capacity, to_ascii_lower};
use crate::color_table::pascal_name_spec;
use vstd::std_specs::convert::FromSpecImpl;
use vstd::std_specs::cmp::PartialEqSpecImpl;

verus! {

/// The result of comparing two names.
#[derive(Debug, Clone, Copy, PartialEq, Eq, Structural)]
pub enum NameOrder {
    Less,
    Equal,
    Greater,
}

/// Characters that color-name lookup ignores.
pub open spec fn is_separator(c: char) -> bool {
    c == ' ' || c == '_'
}

/// A name with spaces and underscores dropped and ASCII letters lowered.
pub open spec fn normalize_name(s: Seq<char>) -> Seq<char>
    decreases s.len(),
{
    if s.len() == 0 {
        Seq::empty()
    } else if is_separator(s.last()) {
        normalize_name(s.drop_last())
    } else {
        normalize_name(s.drop_last()).push(ascii_lower(s.last()))
    }
}

/// Lexicographic order of character sequences by code point.
pub open spec fn lex_order(a: Seq<char>, b: Seq<char>) -> NameOrder
    decreases a.len(),
{
    if a.len() == 0 {
        if b.len() == 0 {
            NameOrder::Equal
        } else {
            NameOrder::Less
        }
    } else if b.len() == 0 {
        NameOrder::Greater
    } else if a[0] == b[0] {
        lex_order(a.drop_first(), b.drop_first())
    } else if a[0] < b[0] {
        NameOrder::Less
    } else {
        NameOrder::Greater
    }
}

/// Normalizing a concatenation normalizes each part.
pub proof fn lemma_normalize_concat(s1: Seq<char>, s2: Seq<char>)
    ensures
        normalize_name(s1 + s2) == normalize_name(s1) + normalize_name(s2),
    decreases s2.len(),
{
    if s2.len() == 0 {
        assert(s1 + s2 =~= s1);
        assert(normalize_name(s1) + normalize_name(s2) =~= normalize_name(s1));
    } else {
        assert((s1 + s2).drop_last() =~= s1 + s2.drop_last());
        assert((s1 + s2).last() == s2.last());
        lemma_normalize_concat(s1, s2.drop_last());
        if !is_separator(s2.last()) {
            assert(normalize_name(s1) + normalize_name(s2) =~= (normalize_name(s1) + normalize_name(
                s2.drop_last(),
            )).push(ascii_lower(s2.last())));
        }
    }
}

/// The order of a sequence and itself is `Equal`, and `Equal` only holds of equal sequences.
pub proof fn lemma_lex_equal(a: Seq<char>, b: Seq<char>)
    ensures
        (lex_order(a, b) == NameOrder::Equal) <==> a == b,
    decreases a.len(),
{
    if a.len() == 0 && b.len() == 0 {
        assert(a =~= b);
    }
    if a.len() > 0 && b.len() > 0 {
        lemma_lex_equal(a.drop_first(), b.drop_first());
        if a.drop_first() == b.drop_first() && a[0] == b[0] {
            assert forall|i: int| 0 <= i < a.len() implies a[i] == b[i] by {
                if i > 0 {
                    assert(a[i] == a.drop_first()[i - 1]);
                    assert(b[i] == b.drop_first()[i - 1]);
                }
            }
            assert(a =~= b);
        }
        if a == b {
            assert(a.drop_first() =~= b.drop_first());
        }
    }
}

/// Swapping the operands swaps `Less` and `Greater`.
pub proof fn lemma_lex_antisymmetric(a: Seq<char>, b: Seq<char>)
    ensures
        (lex_order(a, b) == NameOrder::Less) <==> (lex_order(b, a) == NameOrder::Greater),
    decreases a.len(),
{
    if a.len() > 0 && b.len() > 0 {
        lemma_lex_antisymmetric(a.drop_first(), b.drop_first());
    }
}

/// The order is transitive.
pub proof fn lemma_lex_transitive(a: Seq<char>, b: Seq<char>, c: Seq<char>)
    requires
        lex_order(a, b) == NameOrder::Less,
        lex_order(b, c) == NameOrder::Less,
    ensures
        lex_order(a, c) == NameOrder::Less,
    decreases a.len(),
{
    if a.len() > 0 && b.len() > 0 && c.len() > 0 {
        if a[0] == b[0] && b[0] == c[0] {
            lemma_lex_transitive(a.drop_first(), b.drop_first(), c.drop_first());
        }
    }
}
#[verifier::spinoff_prover]
proof fn lemma_sorted_0()
    ensures
        lex_order(lower_name_at(0), lower_name_at(1)) == NameOrder::Less,
{
    reveal_with_fuel(lex_order, 3);
}

#[verifier::spinoff_prover]
proof fn lemma_sorted_1()
    ensures
        lex_order(lower_name_at(1), lower_name_at(2)) == NameOrder::Less,
{
    reveal_with_fuel(lex_order, 3);
}

#[verifier::spinoff_prover]
proof fn lemma_sorted_2()
    ensures
        lex_order(lower_name_at(2), lower_name_at(3)) == NameOrder::Less,
{
    reveal_with_fuel(lex_order, 6);
}

#[verifier::spinoff_prover]
proof fn lemma_sorted_3()
    ensures
        lex_order(lower_name_at(3), lower_name_at(4)) == NameOrder::Less,
{
    reveal_with_fuel(lex_order, 3);
}

#[verifier::spinoff_prover]
proof fn lemma_sorted_4()
    ensures
        lex_order(lower_name_at(4), lower_name_at(5)) == NameOrder::Less,
{
    reveal_with_fuel(lex_order, 2);
}

#[verifier::spinoff_prover]
proof fn lemma_sorted_5()
    ensures
        lex_order(lower_name_at(5), lower_name_at(6)) == NameOrder::Less,
{
    reveal_with_fuel(lex_order, 3);
}

#[verifier::spinoff_prover]
proof fn lemma_sorted_6()
    ensures
        lex_order(lower_name_at(6), lower_name_at(7)) == NameOrder::Less,
{
    reveal_with_fuel(lex_order, 3);
}

#[verifier::spinoff_prover]
proof fn lemma_sorted_7()
    ensures
        lex_order(lower_name_at(7), lower_name_at(8)) == NameOrder::Less,
{
    reveal_with_fuel(lex_order, 5);
}

#[verifier::spinoff_prover]
proof fn lemma_sorted_8()
    ensures
        lex_order(lower_name_at(8), lower_name_at(9)) == NameOrder::Less,
{
    reveal_with_fuel(lex_order, 4);
}

#[verifier::spinoff_prover]
proof fn lemma_sorted_9()
    ensures
        lex_order(lower_name_at(9), lower_name_at(10)) == NameOrder::Less,
{
    reveal_with_fuel(lex_order, 6);
}

#[verifier::spinoff_prover]
proof fn lemma_sorted_10()
    ensures
        lex_order(lower_name_at(10), lower_name_at(11)) == NameOrder::Less,
{
    reveal_with_fuel(lex_order, 3);
}

#[verifier::spinoff_prover]
proof fn lemma_sorted_11()
    ensures
        lex_order(lower_name_at(11), lower_name_at(12)) == NameOrder::Less,
{
    reveal_with_fuel(lex_order, 3);
}

#[verifier::spinoff_prover]
proof fn lemma_sorted_12()
    ensures
        lex_order(lower_name_at(12), lower_name_at(13)) == NameOrder::Less,
{
    reveal_with_fuel(lex_order, 2);
}

#[verifier::spinoff_prover]
proof fn lemma_sorted_13()
    ensures
        lex_order(lower_name_at(13), lower_name_at(14)) == NameOrder::Less,
{
    reveal_with_fuel(lex_order, 3);
}

#[verifier::spinoff_prover]
proof fn lemma_sorted_14()
    ensures
        lex_order(lower_name_at(14), lower_name_at(15)) == NameOrder::Less,
{
    reveal_with_fuel(lex_order, 4);
}

#[verifier::spinoff_prover]
proof fn lemma_sorted_15()
    ensures
        lex_order(lower_name_at(15), lower_name_at(16)) == NameOrder::Less,
{
    reveal_with_fuel(lex_order, 3);
}

#[verifier::spinoff_prover]
proof fn lemma_sorted_16()
    ensures
        lex_order(lower_name_at(16), lower_name_at(17)) == NameOrder::Less,
{
    reveal_with_fuel(lex_order, 5);
}

#[verifier::spinoff_prover]
proof fn lemma_sorted_17()
    ensures
        lex_order(lower_name_at(17), lower_name_at(18)) == NameOrder::Less,
{
    reveal_with_fuel(lex_order, 6);
}

#[verifier::spinoff_prover]
proof fn lemma_sorted_18()
    ensures
        lex_order(lower_name_at(18), lower_name_at(19)) == NameOrder::Less,
{
    reveal_with_fuel(lex_order, 3);
}

#[verifier::spinoff_prover]
proof fn lemma_sorted_19()
    ensures
        lex_order(lower_name_at(19), lower_name_at(20)) == NameOrder::Less,
{
    reveal_with_fuel(lex_order, 3);
}

#[verifier::spinoff_prover]
proof fn lemma_sorted_20()
    ensures
        lex_order(lower_name_at(20), lower_name_at(21)) == NameOrder::Less,
{
    reveal_with_fuel(lex_order, 2);
}

#[verifier::spinoff_prover]
proof fn lemma_sorted_21()
    ensures
        lex_order(lower_name_at(21), lower_name_at(22)) == NameOrder::Less,
{
    reveal_with_fuel(lex_order, 6);
}

#[verifier::spinoff_prover]
proof fn lemma_sorted_22()
    ensures
        lex_order(lower_name_at(22), lower_name_at(23)) == NameOrder::Less,
{
    reveal_with_fuel(lex_order, 6);
}

#[verifier::spinoff_prover]
proof fn lemma_sorted_23()
    ensures
        lex_order(lower_name_at(23), lower_name_at(24)) == NameOrder::Less,
{
    reveal_with_fuel(lex_order, 7);
}

#[verifier::spinoff_prover]
proof fn lemma_sorted_24()
    ensures
        lex_order(lower_name_at(24), lower_name_at(25)) == NameOrder::Less,
{
    reveal_with_fuel(lex_order, 8);
}

#[verifier::spinoff_prover]
proof fn lemma_sorted_25()
    ensures
        lex_order(lower_name_at(25), lower_name_at(26)) == NameOrder::Less,
{
    reveal_with_fuel(lex_order, 6);
}

#[verifier::spinoff_prover]
proof fn lemma_sorted_26()
    ensures
        lex_order(lower_name_at(26), lower_name_at(27)) == NameOrder::Less,
{
    reveal_with_fuel(lex_order, 6);
}

#[verifier::spinoff_prover]
proof fn lemma_sorted_27()
    ensures
        lex_order(lower_name_at(27), lower_name_at(28)) == NameOrder::Less,
{
    reveal_with_fuel(lex_order, 6);
}

#[verifier::spinoff_prover]
proof fn lemma_sorted_28()
    ensures
        lex_order(lower_name_at(28), lower_name_at(29)) == NameOrder::Less,
{
    reveal_with_fuel(lex_order, 7);
}

#[verifier::spinoff_prover]
proof fn lemma_sorted_29()
    ensures
        lex_order(lower_name_at(29), lower_name_at(30)) == NameOrder::Less,
{
    reveal_with_fuel(lex_order, 8);
}

#[verifier::spinoff_prover]
proof fn lemma_sorted_30()
    ensures
        lex_order(lower_name_at(30), lower_name_at(31)) == NameOrder::Less,
{
    reveal_with_fuel(lex_order, 6);
}

#[verifier::spinoff_prover]
proof fn lemma_sorted_31()
    ensures
        lex_order(lower_name_at(31), lower_name_at(32)) == NameOrder::Less,
{
    reveal_with_fuel(lex_order, 6);
}

#[verifier::spinoff_prover]
proof fn lemma_sorted_32()
    ensures
        lex_order(lower_name_at(32), lower_name_at(33)) == NameOrder::Less,
{
    reveal_with_fuel(lex_order, 7);
}

#[verifier::spinoff_prover]
proof fn lemma_sorted_33()
    ensures
        lex_order(lower_name_at(33), lower_name_at(34)) == NameOrder::Less,
{
    reveal_with_fuel(lex_order, 7);
}

#[verifier::spinoff_prover]
proof fn lemma_sorted_34()
    ensures
        lex_order(lower_name_at(34), lower_name_at(35)) == NameOrder::Less,
{
    reveal_with_fuel(lex_order, 11);
}

#[verifier::spinoff_prover]
proof fn lemma_sorted_35()
    ensures
        lex_order(lower_name_at(35), lower_name_at(36)) == NameOrder::Less,
{
    reveal_with_fuel(lex_order, 6);
}

#[verifier::spinoff_prover]
proof fn lemma_sorted_36()
    ensures
        lex_order(lower_name_at(36), lower_name_at(37)) == NameOrder::Less,
{
    reveal_with_fuel(lex_order, 6);
}

#[verifier::spinoff_prover]
proof fn lemma_sorted_37()
    ensures
        lex_order(lower_name_at(37), lower_name_at(38)) == NameOrder::Less,
{
    reveal_with_fuel(lex_order, 3);
}

#[verifier::spinoff_prover]
proof fn lemma_sorted_38()
    ensures
        lex_order(lower_name_at(38), lower_name_at(39)) == NameOrder::Less,
{
    reveal_with_fuel(lex_order, 6);
}

#[verifier::spinoff_prover]
proof fn lemma_sorted_39()
    ensures
        lex_order(lower_name_at(39), lower_name_at(40)) == NameOrder::Less,
{
    reveal_with_fuel(lex_order, 3);
}

#[verifier::spinoff_prover]
proof fn lemma_sorted_40()
    ensures
        lex_order(lower_name_at(40), lower_name_at(41)) == NameOrder::Less,
{
    reveal_with_fuel(lex_order, 3);
}

#[verifier::spinoff_prover]
proof fn lemma_sorted_41()
    ensures
        lex_order(lower_name_at(41), lower_name_at(42)) == NameOrder::Less,
{
    reveal_with_fuel(lex_order, 2);
}

#[verifier::spinoff_prover]
proof fn lemma_sorted_42()
    ensures
        lex_order(lower_name_at(42), lower_name_at(43)) == NameOrder::Less,
{
    reveal_with_fuel(lex_order, 3);
}

#[verifier::spinoff_prover]
proof fn lemma_sorted_43()
    ensures
        lex_order(lower_name_at(43), lower_name_at(44)) == NameOrder::Less,
{
    reveal_with_fuel(lex_order, 3);
}

#[verifier::spinoff_prover]
proof fn lemma_sorted_44()
    ensures
        lex_order(lower_name_at(44), lower_name_at(45)) == NameOrder::Less,
{
    reveal_with_fuel(lex_order, 3);
}

#[verifier::spinoff_prover]
proof fn lemma_sorted_45()
    ensures
        lex_order(lower_name_at(45), lower_name_at(46)) == NameOrder::Less,
{
    reveal_with_fuel(lex_order, 2);
}

#[verifier::spinoff_prover]
proof fn lemma_sorted_46()
    ensures
        lex_order(lower_name_at(46), lower_name_at(47)) == NameOrder::Less,
{
    reveal_with_fuel(lex_order, 3);
}

#[verifier::spinoff_prover]
proof fn lemma_sorted_47()
    ensures
        lex_order(lower_name_at(47), lower_name_at(48)) == NameOrder::Less,
{
    reveal_with_fuel(lex_order, 3);
}

#[verifier::spinoff_prover]
proof fn lemma_sorted_48()
    ensures
        lex_order(lower_name_at(48), lower_name_at(49)) == NameOrder::Less,
{
    reveal_with_fuel(lex_order, 6);
}

#[verifier::spinoff_prover]
proof fn lemma_sorted_49()
    ensures
        lex_order(lower_name_at(49), lower_name_at(50)) == NameOrder::Less,
{
    reveal_with_fuel(lex_order, 3);
}

#[verifier::spinoff_prover]
proof fn lemma_sorted_50()
    ensures
        lex_order(lower_name_at(50), lower_name_at(51)) == NameOrder::Less,
{
    reveal_with_fuel(lex_order, 4);
}

#[verifier::spinoff_prover]
proof fn lemma_sorted_51()
    ensures
        lex_order(lower_name_at(51), lower_name_at(52)) == NameOrder::Less,
{
    reveal_with_fuel(lex_order, 7);
}

#[verifier::spinoff_prover]
proof fn lemma_sorted_52()
    ensures
        lex_order(lower_name_at(52), lower_name_at(53)) == NameOrder::Less,
{
    reveal_with_fuel(lex_order, 2);
}

#[verifier::spinoff_prover]
proof fn lemma_sorted_53()
    ensures
        lex_order(lower_name_at(53), lower_name_at(54)) == NameOrder::Less,
{
    reveal_with_fuel(lex_order, 4);
}

#[verifier::spinoff_prover]
proof fn lemma_sorted_54()
    ensures
        lex_order(lower_name_at(54), lower_name_at(55)) == NameOrder::Less,
{
    reveal_with_fuel(lex_order, 2);
}

#[verifier::spinoff_prover]
proof fn lemma_sorted_55()
    ensures
        lex_order(lower_name_at(55), lower_name_at(56)) == NameOrder::Less,
{
    reveal_with_fuel(lex_order, 6);
}

#[verifier::spinoff_prover]
proof fn lemma_sorted_56()
    ensures
        lex_order(lower_name_at(56), lower_name_at(57)) == NameOrder::Less,
{
    reveal_with_fuel(lex_order, 3);
}

#[verifier::spinoff_prover]
proof fn lemma_sorted_57()
    ensures
        lex_order(lower_name_at(57), lower_name_at(58)) == NameOrder::Less,
{
    reveal_with_fuel(lex_order, 2);
}

#[verifier::spinoff_prover]
proof fn lemma_sorted_58()
    ensures
        lex_order(lower_name_at(58), lower_name_at(59)) == NameOrder::Less,
{
    reveal_with_fuel(lex_order, 2);
}

#[verifier::spinoff_prover]
proof fn lemma_sorted_59()
    ensures
        lex_order(lower_name_at(59), lower_name_at(60)) == NameOrder::Less,
{
    reveal_with_fuel(lex_order, 10);
}

#[verifier::spinoff_prover]
proof fn lemma_sorted_60()
    ensures
        lex_order(lower_name_at(60), lower_name_at(61)) == NameOrder::Less,
{
    reveal_with_fuel(lex_order, 4);
}

#[verifier::spinoff_prover]
proof fn lemma_sorted_61()
    ensures
        lex_order(lower_name_at(61), lower_name_at(62)) == NameOrder::Less,
{
    reveal_with_fuel(lex_order, 3);
}

#[verifier::spinoff_prover]
proof fn lemma_sorted_62()
    ensures
        lex_order(lower_name_at(62), lower_name_at(63)) == NameOrder::Less,
{
    reveal_with_fuel(lex_order, 3);
}

#[verifier::spinoff_prover]
proof fn lemma_sorted_63()
    ensures
        lex_order(lower_name_at(63), lower_name_at(64)) == NameOrder::Less,
{
    reveal_with_fuel(lex_order, 7);
}

#[verifier::spinoff_prover]
proof fn lemma_sorted_64()
    ensures
        lex_order(lower_name_at(64), lower_name_at(65)) == NameOrder::Less,
{
    reveal_with_fuel(lex_order, 8);
}

#[verifier::spinoff_prover]
proof fn lemma_sorted_65()
    ensures
        lex_order(lower_name_at(65), lower_name_at(66)) == NameOrder::Less,
{
    reveal_with_fuel(lex_order, 7);
}

#[verifier::spinoff_prover]
proof fn lemma_sorted_66()
    ensures
        lex_order(lower_name_at(66), lower_name_at(67)) == NameOrder::Less,
{
    reveal_with_fuel(lex_order, 8);
}

#[verifier::spinoff_prover]
proof fn lemma_sorted_67()
    ensures
        lex_order(lower_name_at(67), lower_name_at(68)) == NameOrder::Less,
{
    reveal_with_fuel(lex_order, 9);
}

#[verifier::spinoff_prover]
proof fn lemma_sorted_68()
    ensures
        lex_order(lower_name_at(68), lower_name_at(69)) == NameOrder::Less,
{
    reveal_with_fuel(lex_order, 7);
}

#[verifier::spinoff_prover]
proof fn lemma_sorted_69()
    ensures
        lex_order(lower_name_at(69), lower_name_at(70)) == NameOrder::Less,
{
    reveal_with_fuel(lex_order, 7);
}

#[verifier::spinoff_prover]
proof fn lemma_sorted_70()
    ensures
        lex_order(lower_name_at(70), lower_name_at(71)) == NameOrder::Less,
{
    reveal_with_fuel(lex_order, 8);
}

#[verifier::spinoff_prover]
proof fn lemma_sorted_71()
    ensures
        lex_order(lower_name_at(71), lower_name_at(72)) == NameOrder::Less,
{
    reveal_with_fuel(lex_order, 8);
}

#[verifier::spinoff_prover]
proof fn lemma_sorted_72()
    ensures
        lex_order(lower_name_at(72), lower_name_at(73)) == NameOrder::Less,
{
    reveal_with_fuel(lex_order, 8);
}

#[verifier::spinoff_prover]
proof fn lemma_sorted_73()
    ensures
        lex_order(lower_name_at(73), lower_name_at(74)) == NameOrder::Less,
{
    reveal_with_fuel(lex_order, 8);
}

#[verifier::spinoff_prover]
proof fn lemma_sorted_74()
    ensures
        lex_order(lower_name_at(74), lower_name_at(75)) == NameOrder::Less,
{
    reveal_with_fuel(lex_order, 7);
}

#[verifier::spinoff_prover]
proof fn lemma_sorted_75()
    ensures
        lex_order(lower_name_at(75), lower_name_at(76)) == NameOrder::Less,
{
    reveal_with_fuel(lex_order, 4);
}

#[verifier::spinoff_prover]
proof fn lemma_sorted_76()
    ensures
        lex_order(lower_name_at(76), lower_name_at(77)) == NameOrder::Less,
{
    reveal_with_fuel(lex_order, 6);
}

#[verifier::spinoff_prover]
proof fn lemma_sorted_77()
    ensures
        lex_order(lower_name_at(77), lower_name_at(78)) == NameOrder::Less,
{
    reveal_with_fuel(lex_order, 4);
}

#[verifier::spinoff_prover]
proof fn lemma_sorted_78()
    ensures
        lex_order(lower_name_at(78), lower_name_at(79)) == NameOrder::Less,
{
    reveal_with_fuel(lex_order, 2);
}

#[verifier::spinoff_prover]
proof fn lemma_sorted_79()
    ensures
        lex_order(lower_name_at(79), lower_name_at(80)) == NameOrder::Less,
{
    reveal_with_fuel(lex_order, 4);
}

#[verifier::spinoff_prover]
proof fn lemma_sorted_80()
    ensures
        lex_order(lower_name_at(80), lower_name_at(81)) == NameOrder::Less,
{
    reveal_with_fuel(lex_order, 3);
}

#[verifier::spinoff_prover]
proof fn lemma_sorted_81()
    ensures
        lex_order(lower_name_at(81), lower_name_at(82)) == NameOrder::Less,
{
    reveal_with_fuel(lex_order, 8);
}

#[verifier::spinoff_prover]
proof fn lemma_sorted_82()
    ensures
        lex_order(lower_name_at(82), lower_name_at(83)) == NameOrder::Less,
{
    reveal_with_fuel(lex_order, 8);
}

#[verifier::spinoff_prover]
proof fn lemma_sorted_83()
    ensures
        lex_order(lower_name_at(83), lower_name_at(84)) == NameOrder::Less,
{
    reveal_with_fuel(lex_order, 8);
}

#[verifier::spinoff_prover]
proof fn lemma_sorted_84()
    ensures
        lex_order(lower_name_at(84), lower_name_at(85)) == NameOrder::Less,
{
    reveal_with_fuel(lex_order, 8);
}

#[verifier::spinoff_prover]
proof fn lemma_sorted_85()
    ensures
        lex_order(lower_name_at(85), lower_name_at(86)) == NameOrder::Less,
{
    reveal_with_fuel(lex_order, 9);
}

#[verifier::spinoff_prover]
proof fn lemma_sorted_86()
    ensures
        lex_order(lower_name_at(86), lower_name_at(87)) == NameOrder::Less,
{
    reveal_with_fuel(lex_order, 9);
}

#[verifier::spinoff_prover]
proof fn lemma_sorted_87()
    ensures
        lex_order(lower_name_at(87), lower_name_at(88)) == NameOrder::Less,
{
    reveal_with_fuel(lex_order, 8);
}

#[verifier::spinoff_prover]
proof fn lemma_sorted_88()
    ensures
        lex_order(lower_name_at(88), lower_name_at(89)) == NameOrder::Less,
{
    reveal_with_fuel(lex_order, 8);
}

#[verifier::spinoff_prover]
proof fn lemma_sorted_89()
    ensures
        lex_order(lower_name_at(89), lower_name_at(90)) == NameOrder::Less,
{
    reveal_with_fuel(lex_order, 3);
}

#[verifier::spinoff_prover]
proof fn lemma_sorted_90()
    ensures
        lex_order(lower_name_at(90), lower_name_at(91)) == NameOrder::Less,
{
    reveal_with_fuel(lex_order, 4);
}

#[verifier::spinoff_prover]
proof fn lemma_sorted_91()
    ensures
        lex_order(lower_name_at(91), lower_name_at(92)) == NameOrder::Less,
{
    reveal_with_fuel(lex_order, 4);
}

#[verifier::spinoff_prover]
proof fn lemma_sorted_92()
    ensures
        lex_order(lower_name_at(92), lower_name_at(93)) == NameOrder::Less,
{
    reveal_with_fuel(lex_order, 3);
}

#[verifier::spinoff_prover]
proof fn lemma_sorted_93()
    ensures
        lex_order(lower_name_at(93), lower_name_at(94)) == NameOrder::Less,
{
    reveal_with_fuel(lex_order, 2);
}

#[verifier::spinoff_prover]
proof fn lemma_sorted_94()
    ensures
        lex_order(lower_name_at(94), lower_name_at(95)) == NameOrder::Less,
{
    reveal_with_fuel(lex_order, 5);
}

#[verifier::spinoff_prover]
proof fn lemma_sorted_95()
    ensures
        lex_order(lower_name_at(95), lower_name_at(96)) == NameOrder::Less,
{
    reveal_with_fuel(lex_order, 2);
}

#[verifier::spinoff_prover]
proof fn lemma_sorted_96()
    ensures
        lex_order(lower_name_at(96), lower_name_at(97)) == NameOrder::Less,
{
    reveal_with_fuel(lex_order, 4);
}

#[verifier::spinoff_prover]
proof fn lemma_sorted_97()
    ensures
        lex_order(lower_name_at(97), lower_name_at(98)) == NameOrder::Less,
{
    reveal_with_fuel(lex_order, 7);
}

#[verifier::spinoff_prover]
proof fn lemma_sorted_98()
    ensures
        lex_order(lower_name_at(98), lower_name_at(99)) == NameOrder::Less,
{
    reveal_with_fuel(lex_order, 3);
}

#[verifier::spinoff_prover]
proof fn lemma_sorted_99()
    ensures
        lex_order(lower_name_at(99), lower_name_at(100)) == NameOrder::Less,
{
    reveal_with_fuel(lex_order, 8);
}

#[verifier::spinoff_prover]
proof fn lemma_sorted_100()
    ensures
        lex_order(lower_name_at(100), lower_name_at(101)) == NameOrder::Less,
{
    reveal_with_fuel(lex_order, 4);
}

#[verifier::spinoff_prover]
proof fn lemma_sorted_101()
    ensures
        lex_order(lower_name_at(101), lower_name_at(102)) == NameOrder::Less,
{
    reveal_with_fuel(lex_order, 2);
}

#[verifier::spinoff_prover]
proof fn lemma_sorted_102()
    ensures
        lex_order(lower_name_at(102), lower_name_at(103)) == NameOrder::Less,
{
    reveal_with_fuel(lex_order, 7);
}

#[verifier::spinoff_prover]
proof fn lemma_sorted_103()
    ensures
        lex_order(lower_name_at(103), lower_name_at(104)) == NameOrder::Less,
{
    reveal_with_fuel(lex_order, 6);
}

#[verifier::spinoff_prover]
proof fn lemma_sorted_104()
    ensures
        lex_order(lower_name_at(104), lower_name_at(105)) == NameOrder::Less,
{
    reveal_with_fuel(lex_order, 6);
}

#[verifier::spinoff_prover]
proof fn lemma_sorted_105()
    ensures
        lex_order(lower_name_at(105), lower_name_at(106)) == NameOrder::Less,
{
    reveal_with_fuel(lex_order, 4);
}

#[verifier::spinoff_prover]
proof fn lemma_sorted_106()
    ensures
        lex_order(lower_name_at(106), lower_name_at(107)) == NameOrder::Less,
{
    reveal_with_fuel(lex_order, 3);
}

#[verifier::spinoff_prover]
proof fn lemma_sorted_107()
    ensures
        lex_order(lower_name_at(107), lower_name_at(108)) == NameOrder::Less,
{
    reveal_with_fuel(lex_order, 4);
}

#[verifier::spinoff_prover]
proof fn lemma_sorted_108()
    ensures
        lex_order(lower_name_at(108), lower_name_at(109)) == NameOrder::Less,
{
    reveal_with_fuel(lex_order, 3);
}

#[verifier::spinoff_prover]
proof fn lemma_sorted_109()
    ensures
        lex_order(lower_name_at(109), lower_name_at(110)) == NameOrder::Less,
{
    reveal_with_fuel(lex_order, 3);
}

#[verifier::spinoff_prover]
proof fn lemma_sorted_110()
    ensures
        lex_order(lower_name_at(110), lower_name_at(111)) == NameOrder::Less,
{
    reveal_with_fuel(lex_order, 3);
}

#[verifier::spinoff_prover]
proof fn lemma_sorted_111()
    ensures
        lex_order(lower_name_at(111), lower_name_at(112)) == NameOrder::Less,
{
    reveal_with_fuel(lex_order, 3);
}

#[verifier::spinoff_prover]
proof fn lemma_sorted_112()
    ensures
        lex_order(lower_name_at(112), lower_name_at(113)) == NameOrder::Less,
{
    reveal_with_fuel(lex_order, 2);
}

#[verifier::spinoff_prover]
proof fn lemma_sorted_113()
    ensures
        lex_order(lower_name_at(113), lower_name_at(114)) == NameOrder::Less,
{
    reveal_with_fuel(lex_order, 3);
}

#[verifier::spinoff_prover]
proof fn lemma_sorted_114()
    ensures
        lex_order(lower_name_at(114), lower_name_at(115)) == NameOrder::Less,
{
    reveal_with_fuel(lex_order, 4);
}

#[verifier::spinoff_prover]
proof fn lemma_sorted_115()
    ensures
        lex_order(lower_name_at(115), lower_name_at(116)) == NameOrder::Less,
{
    reveal_with_fuel(lex_order, 2);
}

#[verifier::spinoff_prover]
proof fn lemma_sorted_116()
    ensures
        lex_order(lower_name_at(116), lower_name_at(117)) == NameOrder::Less,
{
    reveal_with_fuel(lex_order, 4);
}

#[verifier::spinoff_prover]
proof fn lemma_sorted_117()
    ensures
        lex_order(lower_name_at(117), lower_name_at(118)) == NameOrder::Less,
{
    reveal_with_fuel(lex_order, 4);
}

#[verifier::spinoff_prover]
proof fn lemma_sorted_118()
    ensures
        lex_order(lower_name_at(118), lower_name_at(119)) == NameOrder::Less,
{
    reveal_with_fuel(lex_order, 3);
}

#[verifier::spinoff_prover]
proof fn lemma_sorted_119()
    ensures
        lex_order(lower_name_at(119), lower_name_at(120)) == NameOrder::Less,
{
    reveal_with_fuel(lex_order, 5);
}

#[verifier::spinoff_prover]
proof fn lemma_sorted_120()
    ensures
        lex_order(lower_name_at(120), lower_name_at(121)) == NameOrder::Less,
{
    reveal_with_fuel(lex_order, 3);
}

#[verifier::spinoff_prover]
proof fn lemma_sorted_121()
    ensures
        lex_order(lower_name_at(121), lower_name_at(122)) == NameOrder::Less,
{
    reveal_with_fuel(lex_order, 4);
}

#[verifier::spinoff_prover]
proof fn lemma_sorted_122()
    ensures
        lex_order(lower_name_at(122), lower_name_at(123)) == NameOrder::Less,
{
    reveal_with_fuel(lex_order, 3);
}

#[verifier::spinoff_prover]
proof fn lemma_sorted_123()
    ensures
        lex_order(lower_name_at(123), lower_name_at(124)) == NameOrder::Less,
{
    reveal_with_fuel(lex_order, 3);
}

#[verifier::spinoff_prover]
proof fn lemma_sorted_124()
    ensures
        lex_order(lower_name_at(124), lower_name_at(125)) == NameOrder::Less,
{
    reveal_with_fuel(lex_order, 7);
}

#[verifier::spinoff_prover]
proof fn lemma_sorted_125()
    ensures
        lex_order(lower_name_at(125), lower_name_at(126)) == NameOrder::Less,
{
    reveal_with_fuel(lex_order, 3);
}

#[verifier::spinoff_prover]
proof fn lemma_sorted_126()
    ensures
        lex_order(lower_name_at(126), lower_name_at(127)) == NameOrder::Less,
{
    reveal_with_fuel(lex_order, 3);
}

#[verifier::spinoff_prover]
proof fn lemma_sorted_127()
    ensures
        lex_order(lower_name_at(127), lower_name_at(128)) == NameOrder::Less,
{
    reveal_with_fuel(lex_order, 3);
}

#[verifier::spinoff_prover]
proof fn lemma_sorted_128()
    ensures
        lex_order(lower_name_at(128), lower_name_at(129)) == NameOrder::Less,
{
    reveal_with_fuel(lex_order, 2);
}

#[verifier::spinoff_prover]
proof fn lemma_sorted_129()
    ensures
        lex_order(lower_name_at(129), lower_name_at(130)) == NameOrder::Less,
{
    reveal_with_fuel(lex_order, 3);
}

#[verifier::spinoff_prover]
proof fn lemma_sorted_130()
    ensures
        lex_order(lower_name_at(130), lower_name_at(131)) == NameOrder::Less,
{
    reveal_with_fuel(lex_order, 3);
}

#[verifier::spinoff_prover]
proof fn lemma_sorted_131()
    ensures
        lex_order(lower_name_at(131), lower_name_at(132)) == NameOrder::Less,
{
    reveal_with_fuel(lex_order, 3);
}

#[verifier::spinoff_prover]
proof fn lemma_sorted_132()
    ensures
        lex_order(lower_name_at(132), lower_name_at(133)) == NameOrder::Less,
{
    reveal_with_fuel(lex_order, 3);
}

#[verifier::spinoff_prover]
proof fn lemma_sorted_133()
    ensures
        lex_order(lower_name_at(133), lower_name_at(134)) == NameOrder::Less,
{
    reveal_with_fuel(lex_order, 2);
}

#[verifier::spinoff_prover]
proof fn lemma_sorted_134()
    ensures
        lex_order(lower_name_at(134), lower_name_at(135)) == NameOrder::Less,
{
    reveal_with_fuel(lex_order, 2);
}

#[verifier::spinoff_prover]
proof fn lemma_sorted_135()
    ensures
        lex_order(lower_name_at(135), lower_name_at(136)) == NameOrder::Less,
{
    reveal_with_fuel(lex_order, 4);
}

#[verifier::spinoff_prover]
proof fn lemma_sorted_136()
    ensures
        lex_order(lower_name_at(136), lower_name_at(137)) == NameOrder::Less,
{
    reveal_with_fuel(lex_order, 7);
}

#[verifier::spinoff_prover]
proof fn lemma_sorted_137()
    ensures
        lex_order(lower_name_at(137), lower_name_at(138)) == NameOrder::Less,
{
    reveal_with_fuel(lex_order, 2);
}

#[verifier::spinoff_prover]
proof fn lemma_sorted_138()
    ensures
        lex_order(lower_name_at(138), lower_name_at(139)) == NameOrder::Less,
{
    reveal_with_fuel(lex_order, 8);
}

/// Each name of the table comes before the next one.
proof fn lemma_adjacent_names_sorted(k: int)
    requires
        0 <= k < 139,
    ensures
        lex_order(lower_name_at(k), lower_name_at(k + 1)) == NameOrder::Less,
{
    if k == 0 {
        lemma_sorted_0();
    } else if k == 1 {
        lemma_sorted_1();
    } else if k == 2 {
        lemma_sorted_2();
    } else if k == 3 {
        lemma_sorted_3();
    } else if k == 4 {
        lemma_sorted_4();
    } else if k == 5 {
        lemma_sorted_5();
    } else if k == 6 {
        lemma_sorted_6();
    } else if k == 7 {
        lemma_sorted_7();
    } else if k == 8 {
        lemma_sorted_8();
    } else if k == 9 {
        lemma_sorted_9();
    } else if k == 10 {
        lemma_sorted_10();
    } else if k == 11 {
        lemma_sorted_11();
    } else if k == 12 {
        lemma_sorted_12();
    } else if k == 13 {
        lemma_sorted_13();
    } else if k == 14 {
        lemma_sorted_14();
    } else if k == 15 {
        lemma_sorted_15();
    } else if k == 16 {
        lemma_sorted_16();
    } else if k == 17 {
        lemma_sorted_17();
    } else if k == 18 {
        lemma_sorted_18();
    } else if k == 19 {
        lemma_sorted_19();
    } else if k == 20 {
        lemma_sorted_20();
    } else if k == 21 {
        lemma_sorted_21();
    } else if k == 22 {
        lemma_sorted_22();
    } else if k == 23 {
        lemma_sorted_23();
    } else if k == 24 {
        lemma_sorted_24();
    } else if k == 25 {
        lemma_sorted_25();
    } else if k == 26 {
        lemma_sorted_26();
    } else if k == 27 {
        lemma_sorted_27();
    } else if k == 28 {
        lemma_sorted_28();
    } else if k == 29 {
        lemma_sorted_29();
    } else if k == 30 {
        lemma_sorted_30();
    } else if k == 31 {
        lemma_sorted_31();
    } else if k == 32 {
        lemma_sorted_32();
    } else if k == 33 {
        lemma_sorted_33();
    } else if k == 34 {
        lemma_sorted_34();
    } else if k == 35 {
        lemma_sorted_35();
    } else if k == 36 {
        lemma_sorted_36();
    } else if k == 37 {
        lemma_sorted_37();
    } else if k == 38 {
        lemma_sorted_38();
    } else if k == 39 {
        lemma_sorted_39();
    } else if k == 40 {
        lemma_sorted_40();
    } else if k == 41 {
        lemma_sorted_41();
    } else if k == 42 {
        lemma_sorted_42();
    } else if k == 43 {
        lemma_sorted_43();
    } else if k == 44 {
        lemma_sorted_44();
    } else if k == 45 {
        lemma_sorted_45();
    } else if k == 46 {
        lemma_sorted_46();
    } else if k == 47 {
        lemma_sorted_47();
    } else if k == 48 {
        lemma_sorted_48();
    } else if k == 49 {
        lemma_sorted_49();
    } else if k == 50 {
        lemma_sorted_50();
    } else if k == 51 {
        lemma_sorted_51();
    } else if k == 52 {
        lemma_sorted_52();
    } else if k == 53 {
        lemma_sorted_53();
    } else if k == 54 {
        lemma_sorted_54();
    } else if k == 55 {
        lemma_sorted_55();
    } else if k == 56 {
        lemma_sorted_56();
    } else if k == 57 {
        lemma_sorted_57();
    } else if k == 58 {
        lemma_sorted_58();
    } else if k == 59 {
        lemma_sorted_59();
    } else if k == 60 {
        lemma_sorted_60();
    } else if k == 61 {
        lemma_sorted_61();
    } else if k == 62 {
        lemma_sorted_62();
    } else if k == 63 {
        lemma_sorted_63();
    } else if k == 64 {
        lemma_sorted_64();
    } else if k == 65 {
        lemma_sorted_65();
    } else if k == 66 {
        lemma_sorted_66();
    } else if k == 67 {
        lemma_sorted_67();
    } else if k == 68 {
        lemma_sorted_68();
    } else if k == 69 {
        lemma_sorted_69();
    } else if k == 70 {
        lemma_sorted_70();
    } else if k == 71 {
        lemma_sorted_71();
    } else if k == 72 {
        lemma_sorted_72();
    } else if k == 73 {
        lemma_sorted_73();
    } else if k == 74 {
        lemma_sorted_74();
    } else if k == 75 {
        lemma_sorted_75();
    } else if k == 76 {
        lemma_sorted_76();
    } else if k == 77 {
        lemma_sorted_77();
    } else if k == 78 {
        lemma_sorted_78();
    } else if k == 79 {
        lemma_sorted_79();
    } else if k == 80 {
        lemma_sorted_80();
    } else if k == 81 {
        lemma_sorted_81();
    } else if k == 82 {
        lemma_sorted_82();
    } else if k == 83 {
        lemma_sorted_83();
    } else if k == 84 {
        lemma_sorted_84();
    } else if k == 85 {
        lemma_sorted_85();
    } else if k == 86 {
        lemma_sorted_86();
    } else if k == 87 {
        lemma_sorted_87();
    } else if k == 88 {
        lemma_sorted_88();
    } else if k == 89 {
        lemma_sorted_89();
    } else if k == 90 {
        lemma_sorted_90();
    } else if k == 91 {
        lemma_sorted_91();
    } else if k == 92 {
        lemma_sorted_92();
    } else if k == 93 {
        lemma_sorted_93();
    } else if k == 94 {
        lemma_sorted_94();
    } else if k == 95 {
        lemma_sorted_95();
    } else if k == 96 {
        lemma_sorted_96();
    } else if k == 97 {
        lemma_sorted_97();
    } else if k == 98 {
        lemma_sorted_98();
    } else if k == 99 {
        lemma_sorted_99();
    } else if k == 100 {
        lemma_sorted_100();
    } else if k == 101 {
        lemma_sorted_101();
    } else if k == 102 {
        lemma_sorted_102();
    } else if k == 103 {
        lemma_sorted_103();
    } else if k == 104 {
        lemma_sorted_104();
    } else if k == 105 {
        lemma_sorted_105();
    } else if k == 106 {
        lemma_sorted_106();
    } else if k == 107 {
        lemma_sorted_107();
    } else if k == 108 {
        lemma_sorted_108();
    } else if k == 109 {
        lemma_sorted_109();
    } else if k == 110 {
        lemma_sorted_110();
    } else if k == 111 {
        lemma_sorted_111();
    } else if k == 112 {
        lemma_sorted_112();
    } else if k == 113 {
        lemma_sorted_113();
    } else if k == 114 {
        lemma_sorted_114();
    } else if k == 115 {
        lemma_sorted_115();
    } else if k == 116 {
        lemma_sorted_116();
    } else if k == 117 {
        lemma_sorted_117();
    } else if k == 118 {
        lemma_sorted_118();
    } else if k == 119 {
        lemma_sorted_119();
    } else if k == 120 {
        lemma_sorted_120();
    } else if k == 121 {
        lemma_sorted_121();
    } else if k == 122 {
        lemma_sorted_122();
    } else if k == 123 {
        lemma_sorted_123();
    } else if k == 124 {
        lemma_sorted_124();
    } else if k == 125 {
        lemma_sorted_125();
    } else if k == 126 {
        lemma_sorted_126();
    } else if k == 127 {
        lemma_sorted_127();
    } else if k == 128 {
        lemma_sorted_128();
    } else if k == 129 {
        lemma_sorted_129();
    } else if k == 130 {
        lemma_sorted_130();
    } else if k == 131 {
        lemma_sorted_131();
    } else if k == 132 {
        lemma_sorted_132();
    } else if k == 133 {
        lemma_sorted_133();
    } else if k == 134 {
        lemma_sorted_134();
    } else if k == 135 {
        lemma_sorted_135();
    } else if k == 136 {
        lemma_sorted_136();
    } else if k == 137 {
        lemma_sorted_137();
    } else {
        lemma_sorted_138();
    }
}

/// Every name of the table comes before each later one: the lowercase names
/// are strictly sorted, as the binary search of [`find_color`] needs.
pub proof fn lemma_names_sorted(i: int, j: int)
    requires
        0 <= i < j < COLOR_COUNT,
    ensures
        lex_order(lower_name_at(i), lower_name_at(j)) == NameOrder::Less,
    decreases j - i,
{
    lemma_adjacent_names_sorted(j - 1);
    if i < j - 1 {
        lemma_names_sorted(i, j - 1);
        lemma_lex_transitive(lower_name_at(i), lower_name_at(j - 1), lower_name_at(j));
    }
}

/// No two colors share a lowercase name.
pub proof fn lemma_lowercase_names_distinct(a: Color, b: Color)
    requires
        a != b,
    ensures
        lowercase_name_spec(a) != lowercase_name_spec(b),
{
    let i = color_index(a) as int;
    let j = color_index(b) as int;
    if i == j {
        lemma_color_index_injective(a, b);
    } else if i < j {
        lemma_names_sorted(i, j);
        lemma_lex_equal(lower_name_at(i), lower_name_at(j));
    } else {
        lemma_names_sorted(j, i);
        lemma_lex_equal(lower_name_at(j), lower_name_at(i));
    }
}

/// The color whose lowercase name is `name` with spaces and underscores dropped
/// and ASCII letters lowered, if there is one (there is at most one).
pub open spec fn named_color(name: Seq<char>) -> Option<Color> {
    if exists|c: Color| #[trigger] lowercase_name_spec(c) == normalize_name(name) {
        Some(choose|c: Color| #[trigger] lowercase_name_spec(c) == normalize_name(name))
    } else {
        None
    }
}

/// Compares `name`, with spaces and underscores dropped and lowered, with `other`.
pub fn compare_name(name: &str, other: &str) -> (r: NameOrder)
    ensures
        r == lex_order(normalize_name(name@), other@),
{
    let n = name.unicode_len();
    let m = other.unicode_len();
    let mut i: usize = 0;
    let mut j: usize = 0;
    assert(name@.skip(0) =~= name@);
    assert(other@.skip(0) =~= other@);
    while i < n
        invariant
            n == name@.len(),
            m == other@.len(),
            i <= n,
            j <= m,
            lex_order(normalize_name(name@), other@) == lex_order(
                normalize_name(name@.skip(i as int)),
                other@.skip(j as int),
            ),
        decreases n - i,
    {
        let c = name.get_char(i);
        let ghost rest = name@.skip(i as int);
        assert(rest =~= seq![c] + name@.skip(i + 1));
        proof {
            lemma_normalize_concat(seq![c], name@.skip(i + 1));
        }
        assert(normalize_name(seq![c]) =~= (if is_separator(c) {
            Seq::<char>::empty()
        } else {
            seq![ascii_lower(c)]
        })) by {
            assert(seq![c].drop_last() =~= Seq::<char>::empty());
            assert(seq![c].last() == c);
            assert(normalize_name(Seq::<char>::empty()) =~= Seq::<char>::empty());
            assert(Seq::<char>::empty().push(ascii_lower(c)) =~= seq![ascii_lower(c)]);
        }
        if c != ' ' && c != '_' {
            let a = to_ascii_lower(c);
            let ghost x = normalize_name(rest);
            assert(x =~= seq![a] + normalize_name(name@.skip(i + 1)));
            if j == m {
                assert(other@.skip(j as int).len() == 0);
                return NameOrder::Greater;
            }
            let b = other.get_char(j);
            assert(other@.skip(j as int)[0] == b);
            if a < b {
                return NameOrder::Less;
            } else if b < a {
                return NameOrder::Greater;
            }
            assert(x.drop_first() =~= normalize_name(name@.skip(i + 1)));
            assert(other@.skip(j as int).drop_first() =~= other@.skip(j + 1));
            j = j + 1;
        } else {
            assert(normalize_name(rest) =~= normalize_name(name@.skip(i + 1)));
        }
        i = i + 1;
    }
    assert(name@.skip(n as int) =~= Seq::<char>::empty());
    if j == m {
        NameOrder::Equal
    } else {
        NameOrder::Less
    }
}

/// Looks up a named color: spaces and underscores in `name` are ignored
/// and ASCII letters match either case.
pub fn find_color(name: &str) -> (r: Option<Color>)
    ensures
        r == named_color(name@),
        r matches Some(c) ==> lowercase_name_spec(c) == normalize_name(name@),
        r is None ==> forall|c: Color| lowercase_name_spec(c) != normalize_name(name@),
{
    let ghost x = normalize_name(name@);
    let mut low: usize = 0;
    let mut high: usize = COLOR_COUNT;
    while low < high
        invariant
            0 <= low <= high <= COLOR_COUNT,
            x == normalize_name(name@),
            forall|k: int| 0 <= k < low ==> lex_order(#[trigger] lower_name_at(k), x) == NameOrder::Less,
            forall|k: int|
                high <= k < COLOR_COUNT ==> lex_order(x, #[trigger] lower_name_at(k)) == NameOrder::Less,
        decreases high - low,
    {
        let mid = low + (high - low) / 2;
        let mid_name = lower_name_at_index(mid);
        match compare_name(name, mid_name) {
            NameOrder::Less => {
                assert forall|k: int| mid <= k < COLOR_COUNT implies lex_order(x, #[trigger] lower_name_at(k))
                    == NameOrder::Less by {
                    if mid < k {
                        lemma_names_sorted(mid as int, k);
                        lemma_lex_transitive(x, lower_name_at(mid as int), lower_name_at(k));
                    }
                }
                high = mid;
            },
            NameOrder::Equal => {
                proof {
                    lemma_lex_equal(x, lower_name_at(mid as int));
                }
                let found = Color::from_index(mid);
                proof {
                    assert(lowercase_name_spec(found) == x);
                    let c = choose|c: Color| #[trigger] lowercase_name_spec(c) == normalize_name(name@);
                    if c != found {
                        lemma_lowercase_names_distinct(c, found);
                    }
                }
                return Some(found);
            },
            NameOrder::Greater => {
                proof {
                    lemma_lex_antisymmetric(lower_name_at(mid as int), x);
                }
                assert forall|k: int| 0 <= k <= mid implies lex_order(#[trigger] lower_name_at(k), x)
                    == NameOrder::Less by {
                    if k < mid {
                        lemma_names_sorted(k, mid as int);
                        lemma_lex_transitive(lower_name_at(k), lower_name_at(mid as int), x);
                    }
                }
                low = mid + 1;
            },
        }
    }
    proof {
        assert forall|c: Color| lowercase_name_spec(c) != x by {
            let k = color_index(c) as int;
            lemma_lex_equal(lower_name_at(k), x);
            lemma_lex_equal(x, lower_name_at(k));
            lemma_lex_antisymmetric(x, lower_name_at(k));
        }
    }
    None
}

impl Color {
    /// The `lowercasename`.
    pub fn lowercase_name(self) -> (r: &'static str)
        ensures
            r@ == lowercase_name_spec(self),
    {
        lower_name_at_index(self.index())
    }

    /// The [`Rgba`] value, fully opaque.
    pub fn rgba(self) -> (r: Rgba)
        ensures
            r == (Rgba { r: rgb_spec(self).r, g: rgb_spec(self).g, b: rgb_spec(self).b, a: 255 }),
    {
        self.rgb().rgba()
    }

    /// The [`Rgba`] value, fully transparent.
    pub fn transparent(self) -> (r: Rgba)
        ensures
            r == (Rgba { r: rgb_spec(self).r, g: rgb_spec(self).g, b: rgb_spec(self).b, a: 0 }),
    {
        self.rgb().transparent()
    }

    /// The [`Rgba`] value, fully opaque.
    pub fn opaque(self) -> (r: Rgba)
        ensures
            r == (Rgba { r: rgb_spec(self).r, g: rgb_spec(self).g, b: rgb_spec(self).b, a: 255 }),
    {
        self.rgba()
    }

    /// The color at position `byte` of the table, if there is one.
    pub fn from_byte(byte: u8) -> (r: Option<Self>)
        ensures
            r is Some <==> byte < COLOR_COUNT,
            r matches Some(c) ==> color_index(c) == byte,
    {
        if (byte as usize) < COLOR_COUNT {
            Some(Color::from_index(byte as usize))
        } else {
            None
        }
    }

    /// The position of this color in the table, as a byte.
    pub fn to_byte(self) -> (r: u8)
        ensures
            r == color_index(self),
    {
        let i = self.index();
        i as u8
    }

    /// Every color, in table order.
    pub fn iter() -> (r: Vec<Color>)
        ensures
            r@.len() == COLOR_COUNT,
            forall|i: int| 0 <= i < r@.len() ==> color_index(#[trigger] r@[i]) == i,
    {
        let mut r: Vec<Color> = Vec::new();
        let mut i: usize = 0;
        while i < COLOR_COUNT
            invariant
                i <= COLOR_COUNT,
                r@.len() == i,
                forall|k: int| 0 <= k < i ==> color_index(#[trigger] r@[k]) == k,
            decreases COLOR_COUNT - i,
        {
            r.push(Color::from_index(i));
            i = i + 1;
        }
        r
    }

    /// Looks up a color by name, as [`find_color`] does.
    pub fn from_name(name: &str) -> (r: Option<Color>)
        ensures
            r == named_color(name@),
            r matches Some(c) ==> lowercase_name_spec(c) == normalize_name(name@),
            r is None ==> forall|c: Color| lowercase_name_spec(c) != normalize_name(name@),
    {
        find_color(name)
    }
}

impl Rgb {
    /// The channels of the named color, if `name` names one (see [`find_color`]).
    pub fn from_name(name: &str) -> (r: Option<Self>)
        ensures
            r == (match named_color(name@) {
                Some(k) => Some(rgb_spec(k)),
                None => None,
            }),
            r matches Some(c) ==> exists|k: Color|
                lowercase_name_spec(k) == normalize_name(name@) && c == rgb_spec(k),
            r is None ==> forall|c: Color| lowercase_name_spec(c) != normalize_name(name@),
    {
        match find_color(name) {
            Some(color) => Some(color.rgb()),
            None => None,
        }
    }
}

impl Rgba {
    /// The opaque channels of the named color, if `name` names one (see [`find_color`]).
    pub fn from_name(name: &str) -> (r: Option<Self>)
        ensures
            r == (match named_color(name@) {
                Some(k) => Some(Rgba { r: rgb_spec(k).r, g: rgb_spec(k).g, b: rgb_spec(k).b, a: 255 }),
                None => None,
            }),
            r matches Some(c) ==> exists|k: Color|
                lowercase_name_spec(k) == normalize_name(name@) && c == (Rgba {
                    r: rgb_spec(k).r,
                    g: rgb_spec(k).g,
                    b: rgb_spec(k).b,
                    a: 255,
                }),
            r is None ==> forall|c: Color| lowercase_name_spec(c) != normalize_name(name@),
    {
        match find_color(name) {
            Some(color) => Some(color.rgba()),
            None => None,
        }
    }
}

impl Color {
    /// The color as text: `Color::` and its `PascalCase` name.
    pub fn to_string(self) -> (s: String)
        ensures
            s@ == "Color::"@ + pascal_name_spec(self),
    {
        let mut s = string_with_capacity(32);
        push_str(&mut s, "Color::");
        push_str(&mut s, self.pascal_name());
        s
    }
}

impl From<Color> for Rgb {
    fn from(value: Color) -> (c: Rgb) {
        value.rgb()
    }
}

impl FromSpecImpl<Color> for Rgb {
    open spec fn obeys_from_spec() -> bool {
        true
    }

    open spec fn from_spec(v: Color) -> Rgb {
        rgb_spec(v)
    }
}

impl From<Color> for Rgba {
    fn from(value: Color) -> (c: Rgba) {
        value.rgba()
    }
}

impl FromSpecImpl<Color> for Rgba {
    open spec fn obeys_from_spec() -> bool {
        true
    }

    open spec fn from_spec(v: Color) -> Rgba {
        Rgba { r: rgb_spec(v).r, g: rgb_spec(v).g, b: rgb_spec(v).b, a: 255 }
    }
}

impl PartialEq<Color> for Rgb {
    fn eq(&self, other: &Color) -> (r: bool) {
        let c = other.rgb();
        self.r == c.r && self.g == c.g && self.b == c.b
    }
}

impl PartialEqSpecImpl<Color> for Rgb {
    open spec fn obeys_eq_spec() -> bool {
        true
    }

    open spec fn eq_spec(&self, other: &Color) -> bool {
        *self == rgb_spec(*other)
    }
}

impl PartialEq<Rgb> for Color {
    fn eq(&self, other: &Rgb) -> (r: bool) {
        let c = self.rgb();
        c.r == other.r && c.g == other.g && c.b == other.b
    }
}

impl PartialEqSpecImpl<Rgb> for Color {
    open spec fn obeys_eq_spec() -> bool {
        true
    }

    open spec fn eq_spec(&self, other: &Rgb) -> bool {
        rgb_spec(*self) == *other
    }
}

impl PartialEq<Color> for Rgba {
    fn eq(&self, other: &Color) -> (r: bool) {
        let c = other.rgb();
        self.r == c.r && self.g == c.g && self.b == c.b && self.a == 255
    }
}

impl PartialEqSpecImpl<Color> for Rgba {
    open spec fn obeys_eq_spec() -> bool {
        true
    }

    open spec fn eq_spec(&self, other: &Color) -> bool {
        *self == (Rgba { r: rgb_spec(*other).r, g: rgb_spec(*other).g, b: rgb_spec(*other).b, a: 255 })
    }
}

impl PartialEq<Rgba> for Color {
    fn eq(&self, other: &Rgba) -> (r: bool) {
        let c = self.rgb();
        c.r == other.r && c.g == other.g && c.b == other.b && other.a == 255
    }
}

impl PartialEqSpecImpl<Rgba> for Color {
    open spec fn obeys_eq_spec() -> bool {
        true
    }

    open spec fn eq_spec(&self, other: &Rgba) -> bool {
        (Rgba { r: rgb_spec(*self).r, g: rgb_spec(*self).g, b: rgb_spec(*self).b, a: 255 }) == *other
    }
}

} // verus!
