//! Byte sources for seeding random number generators.
use vstd::prelude::*;
use crate::hash::{blake3_bytes, blake3_digest};
use crate::io::Writeable;

verus! {

/// `char::encode_utf8` into a zeroed four-byte buffer: the UTF-8 bytes of `c`, then
/// zeros up to four bytes.
#[verifier::external_body]
fn char_utf8_padded(c: char) -> (r: [u8; 4])
    ensures
        r@ == vstd::utf8::encode_utf8(seq![c]) + Seq::new(
            (4 - vstd::utf8::encode_utf8(seq![c]).len()) as nat,
            |i: int| 0u8,
        ),
{
    let mut buf = [0u8; 4];
    c.encode_utf8(&mut buf);
    buf
}

/// A value that can be turned into the seed of a random number generator: its
/// bytes are hashed with BLAKE3.
pub trait SeedSource {
    /// The bytes that the value contributes.
    spec fn spec_seed_bytes(&self) -> Seq<u8>;

    /// Appends the value's bytes.
    fn write(&self, out: &mut Vec<u8>)
        ensures
            final(out)@ == old(out)@ + self.spec_seed_bytes(),
    ;

    /// The BLAKE3 hash of the value's bytes.
    fn seed(&self) -> (r: [u8; 32])
        ensures
            r@ == blake3_digest(self.spec_seed_bytes()),
    {
        let mut bytes: Vec<u8> = Vec::new();
        self.write(&mut bytes);
        proof {
            assert(Seq::<u8>::empty() + self.spec_seed_bytes() =~= self.spec_seed_bytes());
        }
        blake3_bytes(bytes.as_slice())
    }
}

impl SeedSource for u8 {
    open spec fn spec_seed_bytes(&self) -> Seq<u8> {
        self.spec_write()->Ok_0
    }

    fn write(&self, out: &mut Vec<u8>) {
        let _ = self.write_to(out);
    }
}

impl SeedSource for u16 {
    open spec fn spec_seed_bytes(&self) -> Seq<u8> {
        self.spec_write()->Ok_0
    }

    fn write(&self, out: &mut Vec<u8>) {
        let _ = self.write_to(out);
    }
}

impl SeedSource for u32 {
    open spec fn spec_seed_bytes(&self) -> Seq<u8> {
        self.spec_write()->Ok_0
    }

    fn write(&self, out: &mut Vec<u8>) {
        let _ = self.write_to(out);
    }
}

impl SeedSource for u64 {
    open spec fn spec_seed_bytes(&self) -> Seq<u8> {
        self.spec_write()->Ok_0
    }

    fn write(&self, out: &mut Vec<u8>) {
        let _ = self.write_to(out);
    }
}

impl SeedSource for u128 {
    open spec fn spec_seed_bytes(&self) -> Seq<u8> {
        self.spec_write()->Ok_0
    }

    fn write(&self, out: &mut Vec<u8>) {
        let _ = self.write_to(out);
    }
}

impl SeedSource for i8 {
    open spec fn spec_seed_bytes(&self) -> Seq<u8> {
        self.spec_write()->Ok_0
    }

    fn write(&self, out: &mut Vec<u8>) {
        let _ = self.write_to(out);
    }
}

impl SeedSource for i16 {
    open spec fn spec_seed_bytes(&self) -> Seq<u8> {
        self.spec_write()->Ok_0
    }

    fn write(&self, out: &mut Vec<u8>) {
        let _ = self.write_to(out);
    }
}

impl SeedSource for i32 {
    open spec fn spec_seed_bytes(&self) -> Seq<u8> {
        self.spec_write()->Ok_0
    }

    fn write(&self, out: &mut Vec<u8>) {
        let _ = self.write_to(out);
    }
}

impl SeedSource for i64 {
    open spec fn spec_seed_bytes(&self) -> Seq<u8> {
        self.spec_write()->Ok_0
    }

    fn write(&self, out: &mut Vec<u8>) {
        let _ = self.write_to(out);
    }
}

impl SeedSource for i128 {
    open spec fn spec_seed_bytes(&self) -> Seq<u8> {
        self.spec_write()->Ok_0
    }

    fn write(&self, out: &mut Vec<u8>) {
        let _ = self.write_to(out);
    }
}

impl SeedSource for bool {
    open spec fn spec_seed_bytes(&self) -> Seq<u8> {
        seq![if *self { 1u8 } else { 0u8 }]
    }

    fn write(&self, out: &mut Vec<u8>) {
        out.push(if *self { 1u8 } else { 0u8 });
        proof {
            assert(out@ =~= old(out)@ + self.spec_seed_bytes());
        }
    }
}

impl SeedSource for char {
    open spec fn spec_seed_bytes(&self) -> Seq<u8> {
        vstd::utf8::encode_utf8(seq![*self]) + Seq::new(
            (4 - vstd::utf8::encode_utf8(seq![*self]).len()) as nat,
            |i: int| 0u8,
        )
    }

    fn write(&self, out: &mut Vec<u8>) {
        let buf = char_utf8_padded(*self);
        let _ = crate::io::write_bytes(out, buf.as_slice());
    }
}

impl<'a> SeedSource for &'a str {
    open spec fn spec_seed_bytes(&self) -> Seq<u8> {
        vstd::utf8::encode_utf8(self@)
    }

    fn write(&self, out: &mut Vec<u8>) {
        let _ = crate::io::write_bytes(out, self.as_bytes());
    }
}

impl SeedSource for String {
    open spec fn spec_seed_bytes(&self) -> Seq<u8> {
        vstd::utf8::encode_utf8(self@)
    }

    fn write(&self, out: &mut Vec<u8>) {
        let _ = crate::io::write_bytes(out, self.as_str().as_bytes());
    }
}

impl<'a, T: SeedSource> SeedSource for &'a T {
    open spec fn spec_seed_bytes(&self) -> Seq<u8> {
        (**self).spec_seed_bytes()
    }

    fn write(&self, out: &mut Vec<u8>) {
        (**self).write(out)
    }
}

/// The bytes of several values one after another.
pub open spec fn seed_bytes_of<T: SeedSource>(items: Seq<T>) -> Seq<u8>
    decreases items.len(),
{
    if items.len() == 0 {
        Seq::empty()
    } else {
        seed_bytes_of(items.drop_last()) + items.last().spec_seed_bytes()
    }
}

/// Appends the bytes of each item in turn.
fn write_all_items<T: SeedSource>(items: &[T], out: &mut Vec<u8>)
    ensures
        final(out)@ == old(out)@ + seed_bytes_of(items@),
{
    let mut i: usize = 0;
    while i < items.len()
        invariant
            i <= items@.len(),
            out@ == old(out)@ + seed_bytes_of(items@.take(i as int)),
        decreases items@.len() - i,
    {
        let ghost before = out@;
        items[i].write(out);
        proof {
            assert(items@.take(i as int + 1).drop_last() =~= items@.take(i as int));
            assert(out@ =~= old(out)@ + seed_bytes_of(items@.take(i as int + 1)));
        }
        i = i + 1;
    }
    proof {
        assert(items@.take(items@.len() as int) =~= items@);
    }
}

impl<'a, T: SeedSource> SeedSource for &'a [T] {
    open spec fn spec_seed_bytes(&self) -> Seq<u8> {
        seed_bytes_of(self@)
    }

    fn write(&self, out: &mut Vec<u8>) {
        write_all_items(self, out)
    }
}

impl<T: SeedSource> SeedSource for Vec<T> {
    open spec fn spec_seed_bytes(&self) -> Seq<u8> {
        seed_bytes_of(self@)
    }

    fn write(&self, out: &mut Vec<u8>) {
        write_all_items(self.as_slice(), out)
    }
}

impl<T0: SeedSource> SeedSource for (T0,) {
    open spec fn spec_seed_bytes(&self) -> Seq<u8> {
        self.0.spec_seed_bytes()
    }

    fn write(&self, out: &mut Vec<u8>) {
        self.0.write(out);
        proof {
            assert(out@ =~= old(out)@ + self.spec_seed_bytes());
        }
    }
}

impl<T0: SeedSource, T1: SeedSource> SeedSource for (T0, T1) {
    open spec fn spec_seed_bytes(&self) -> Seq<u8> {
        self.0.spec_seed_bytes() + self.1.spec_seed_bytes()
    }

    fn write(&self, out: &mut Vec<u8>) {
        self.0.write(out);
        self.1.write(out);
        proof {
            assert(out@ =~= old(out)@ + self.spec_seed_bytes());
        }
    }
}

impl<T0: SeedSource, T1: SeedSource, T2: SeedSource> SeedSource for (T0, T1, T2) {
    open spec fn spec_seed_bytes(&self) -> Seq<u8> {
        self.0.spec_seed_bytes() + self.1.spec_seed_bytes() + self.2.spec_seed_bytes()
    }

    fn write(&self, out: &mut Vec<u8>) {
        self.0.write(out);
        self.1.write(out);
        self.2.write(out);
        proof {
            assert(out@ =~= old(out)@ + self.spec_seed_bytes());
        }
    }
}

impl<T0: SeedSource, T1: SeedSource, T2: SeedSource, T3: SeedSource> SeedSource for (T0, T1, T2, T3) {
    open spec fn spec_seed_bytes(&self) -> Seq<u8> {
        self.0.spec_seed_bytes() + self.1.spec_seed_bytes() + self.2.spec_seed_bytes() + self.3.spec_seed_bytes()
    }

    fn write(&self, out: &mut Vec<u8>) {
        self.0.write(out);
        self.1.write(out);
        self.2.write(out);
        self.3.write(out);
        proof {
            assert(out@ =~= old(out)@ + self.spec_seed_bytes());
        }
    }
}

impl<T0: SeedSource, T1: SeedSource, T2: SeedSource, T3: SeedSource, T4: SeedSource> SeedSource for (T0, T1, T2, T3, T4) {
    open spec fn spec_seed_bytes(&self) -> Seq<u8> {
        self.0.spec_seed_bytes() + self.1.spec_seed_bytes() + self.2.spec_seed_bytes() + self.3.spec_seed_bytes() + self.4.spec_seed_bytes()
    }

    fn write(&self, out: &mut Vec<u8>) {
        self.0.write(out);
        self.1.write(out);
        self.2.write(out);
        self.3.write(out);
        self.4.write(out);
        proof {
            assert(out@ =~= old(out)@ + self.spec_seed_bytes());
        }
    }
}

impl<T0: SeedSource, T1: SeedSource, T2: SeedSource, T3: SeedSource, T4: SeedSource, T5: SeedSource> SeedSource for (T0, T1, T2, T3, T4, T5) {
    open spec fn spec_seed_bytes(&self) -> Seq<u8> {
        self.0.spec_seed_bytes() + self.1.spec_seed_bytes() + self.2.spec_seed_bytes() + self.3.spec_seed_bytes() + self.4.spec_seed_bytes() + self.5.spec_seed_bytes()
    }

    fn write(&self, out: &mut Vec<u8>) {
        self.0.write(out);
        self.1.write(out);
        self.2.write(out);
        self.3.write(out);
        self.4.write(out);
        self.5.write(out);
        proof {
            assert(out@ =~= old(out)@ + self.spec_seed_bytes());
        }
    }
}

impl<T0: SeedSource, T1: SeedSource, T2: SeedSource, T3: SeedSource, T4: SeedSource, T5: SeedSource, T6: SeedSource> SeedSource for (T0, T1, T2, T3, T4, T5, T6) {
    open spec fn spec_seed_bytes(&self) -> Seq<u8> {
        self.0.spec_seed_bytes() + self.1.spec_seed_bytes() + self.2.spec_seed_bytes() + self.3.spec_seed_bytes() + self.4.spec_seed_bytes() + self.5.spec_seed_bytes() + self.6.spec_seed_bytes()
    }

    fn write(&self, out: &mut Vec<u8>) {
        self.0.write(out);
        self.1.write(out);
        self.2.write(out);
        self.3.write(out);
        self.4.write(out);
        self.5.write(out);
        self.6.write(out);
        proof {
            assert(out@ =~= old(out)@ + self.spec_seed_bytes());
        }
    }
}

impl<T0: SeedSource, T1: SeedSource, T2: SeedSource, T3: SeedSource, T4: SeedSource, T5: SeedSource, T6: SeedSource, T7: SeedSource> SeedSource for (T0, T1, T2, T3, T4, T5, T6, T7) {
    open spec fn spec_seed_bytes(&self) -> Seq<u8> {
        self.0.spec_seed_bytes() + self.1.spec_seed_bytes() + self.2.spec_seed_bytes() + self.3.spec_seed_bytes() + self.4.spec_seed_bytes() + self.5.spec_seed_bytes() + self.6.spec_seed_bytes() + self.7.spec_seed_bytes()
    }

    fn write(&self, out: &mut Vec<u8>) {
        self.0.write(out);
        self.1.write(out);
        self.2.write(out);
        self.3.write(out);
        self.4.write(out);
        self.5.write(out);
        self.6.write(out);
        self.7.write(out);
        proof {
            assert(out@ =~= old(out)@ + self.spec_seed_bytes());
        }
    }
}

} // verus!
