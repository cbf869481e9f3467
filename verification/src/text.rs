use vstd::prelude::*;

verus! {

/// `String::with_capacity`: an empty string with room for `capacity` bytes.
#[verifier::external_body]
pub(crate) fn string_with_capacity(capacity: usize) -> (r: String)
    ensures
        r@ == Seq::<char>::empty(),
{
    String::with_capacity(capacity)
}

/// `String::push`: appends one character.
#[verifier::external_body]
pub(crate) fn string_push(s: &mut String, c: char)
    ensures
        final(s)@ == old(s)@.push(c),
{
    s.push(c)
}

/// The character of a decimal digit.
pub open spec fn digit_char(d: nat) -> char {
    ((48 + d) as u8) as char
}

/// The decimal digits of `n`, without leading zeros.
pub open spec fn decimal(n: nat) -> Seq<char>
    decreases n,
{
    if n < 10 {
        seq![digit_char(n)]
    } else {
        decimal(n / 10).push(digit_char(n % 10))
    }
}

/// Appends the decimal digits of `n`.
pub(crate) fn push_decimal_u64(s: &mut String, n: u64)
    ensures
        final(s)@ == old(s)@ + decimal(n as nat),
{
    let mut m = n;
    let mut digits: Vec<char> = Vec::new();
    while m >= 10
        invariant
            decimal(n as nat) == decimal(m as nat) + digits@.reverse(),
        decreases m,
    {
        let d = ((48 + m % 10) as u8) as char;
        proof {
            assert(decimal(m as nat) == decimal((m / 10) as nat).push(d));
            assert(digits@.push(d).reverse() =~= seq![d] + digits@.reverse());
            assert(decimal((m / 10) as nat).push(d) + digits@.reverse() =~= decimal((m / 10) as nat)
                + digits@.push(d).reverse());
        }
        digits.push(d);
        m = m / 10;
    }
    let ghost start = s@;
    string_push(s, ((48 + m) as u8) as char);
    let mut i = digits.len();
    while i > 0
        invariant
            i <= digits@.len(),
            s@ == start + decimal(m as nat) + digits@.reverse().take(digits@.len() - i),
        decreases i,
    {
        i = i - 1;
        string_push(s, digits[i]);
        proof {
            assert(digits@.reverse()[digits@.len() - 1 - i] == digits@[i as int]);
            assert(digits@.reverse().take(digits@.len() - i) =~= digits@.reverse().take(
                digits@.len() - 1 - i,
            ).push(digits@[i as int]));
        }
    }
    proof {
        assert(digits@.reverse().take(digits@.len() as int) =~= digits@.reverse());
    }
}

/// Appends the characters of `text`.
pub(crate) fn push_str(s: &mut String, text: &str)
    ensures
        final(s)@ == old(s)@ + text@,
{
    let n = text.unicode_len();
    let mut i: usize = 0;
    while i < n
        invariant
            i <= n,
            n == text@.len(),
            s@ == old(s)@ + text@.take(i as int),
        decreases n - i,
    {
        string_push(s, text.get_char(i));
        i = i + 1;
        proof {
            assert(s@ =~= old(s)@ + text@.take(i as int));
        }
    }
    proof {
        assert(text@.take(n as int) =~= text@);
    }
}

/// The ASCII lower-case form of a character; other characters are unchanged.
pub open spec fn ascii_lower(c: char) -> char {
    if 'A' <= c && c <= 'Z' {
        ((c as u32) + 32) as char
    } else {
        c
    }
}

/// `char::to_ascii_lowercase`, written out: maps 'A'..='Z' to 'a'..='z'.
pub fn to_ascii_lower(c: char) -> (r: char)
    ensures
        r == ascii_lower(c),
{
    if 'A' <= c && c <= 'Z' {
        let code = c as u8;
        assert(code as u32 == c as u32);
        ((code + 32) as u8) as char
    } else {
        c
    }
}

} // verus!
