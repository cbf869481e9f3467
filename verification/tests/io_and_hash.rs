use hexahedron::hash::deterministic;
use hexahedron::hash::{xor_256_to_64, xor_bits, Blake3Hasher, Sha256Hasher};
use hexahedron::io::{
    read_bytes, read_u24, read_vec, write_bytes, write_slice, write_u24, write_zeros, Error,
    ReadExt, Reader, WriteExt,
};
use hexahedron::seed::SeedSource;

fn encode<T: hexahedron::io::Writeable>(value: &T) -> Vec<u8> {
    let mut out = Vec::new();
    out.write_value(value).unwrap();
    out
}

#[test]
fn integers_are_big_endian_full_width() {
    assert_eq!(encode(&0x1234u16), vec![0x12, 0x34]);
    assert_eq!(encode(&0x01020304u32), vec![1, 2, 3, 4]);
    assert_eq!(encode(&-1i16), vec![0xff, 0xff]);
    assert_eq!(encode(&-2i32), vec![0xff, 0xff, 0xff, 0xfe]);
    assert_eq!(encode(&7u8), vec![7]);
    assert_eq!(encode(&1u64).len(), 8);
    assert_eq!(encode(&1u128).len(), 16);
}

#[test]
fn integers_round_trip() {
    let bytes = encode(&(-123456789i64, 0xdeadbeefu32, i128::MIN, u16::MAX));
    let mut reader = Reader::new(&bytes);
    let back: (i64, u32, i128, u16) = reader.read_value().unwrap();
    assert_eq!(back, (-123456789i64, 0xdeadbeefu32, i128::MIN, u16::MAX));
    assert_eq!(reader.remaining(), 0);
}

#[test]
fn bool_and_char_encoding() {
    assert_eq!(encode(&true), vec![1]);
    assert_eq!(encode(&false), vec![0]);
    assert_eq!(encode(&'A'), vec![0, 0, 0, 0x41]);
    let bytes = encode(&'é');
    let mut reader = Reader::new(&bytes);
    let c: char = reader.read_value().unwrap();
    assert_eq!(c, 'é');
}

#[test]
fn invalid_codepoint_is_refused() {
    let bytes = [0u8, 0, 0xd8, 0];
    let mut reader = Reader::new(&bytes);
    let r: Result<char, Error> = reader.read_value();
    assert_eq!(r, Err(Error::InvalidCodepoint));
}

#[test]
fn string_encoding_has_u24_length() {
    let bytes = encode(&String::from("hi"));
    assert_eq!(bytes, vec![0, 0, 2, b'h', b'i']);
    let mut reader = Reader::new(&bytes);
    let s: String = reader.read_value().unwrap();
    assert_eq!(s, "hi");
    assert_eq!(encode(&"hello, world!"), {
        let mut v = vec![0u8, 0, 13];
        v.extend_from_slice(b"hello, world!");
        v
    });
}

#[test]
fn invalid_utf8_is_refused() {
    let bytes = [0u8, 0, 1, 0xff];
    let mut reader = Reader::new(&bytes);
    let r: Result<String, Error> = reader.read_value();
    assert_eq!(r, Err(Error::InvalidUtf8));
}

#[test]
fn truncated_input_is_unexpected_eof() {
    let bytes = [0u8, 1];
    let mut reader = Reader::new(&bytes);
    let r: Result<u32, Error> = reader.read_value();
    assert_eq!(r, Err(Error::UnexpectedEof));
    let mut empty = Reader::new(&[]);
    assert_eq!(empty.read_byte(), Err(Error::UnexpectedEof));
}

#[test]
fn u24_limits() {
    let mut out = Vec::new();
    assert_eq!(write_u24(&mut out, 0x123456), Ok(3));
    assert_eq!(out, vec![0x12, 0x34, 0x56]);
    let mut reader = Reader::new(&out);
    assert_eq!(read_u24(&mut reader), Ok(0x123456));
    let mut out2 = Vec::new();
    assert_eq!(write_u24(&mut out2, 0x1000000), Err(Error::U24OutOfRange));
}

#[test]
fn lists_round_trip() {
    let list: Vec<u16> = vec![1, 2, 0xffff];
    let bytes = encode(&list);
    assert_eq!(bytes, vec![0, 0, 3, 0, 1, 0, 2, 0xff, 0xff]);
    let mut reader = Reader::new(&bytes);
    let back: Vec<u16> = read_vec(&mut reader).unwrap();
    assert_eq!(back, list);
    let mut out = Vec::new();
    assert_eq!(write_slice(&mut out, &[5u32, 6u32]), Ok(11));
}

#[test]
fn byte_lists_round_trip() {
    let data: Vec<u8> = vec![9, 8, 7];
    let bytes = encode(&data);
    assert_eq!(bytes, vec![0, 0, 3, 9, 8, 7]);
    let mut reader = Reader::new(&bytes);
    let back: Vec<u8> = reader.read_value().unwrap();
    assert_eq!(back, data);
    let mut out = Vec::new();
    assert_eq!(write_bytes(&mut out, &[1, 2]), Ok(2));
    assert_eq!(out, vec![1, 2]);
    let mut reader = Reader::new(&out);
    assert_eq!(read_bytes(&mut reader, 3), Err(Error::UnexpectedEof));
    assert_eq!(read_bytes(&mut reader, 2), Ok(vec![1, 2]));
}

#[test]
fn zeros_are_written() {
    let mut out = vec![1u8];
    write_zeros(&mut out, 5).unwrap();
    assert_eq!(out, vec![1, 0, 0, 0, 0, 0]);
}

#[test]
fn ranges_round_trip() {
    let bytes = encode(&(-5i64..7i64));
    assert_eq!(bytes.len(), 16);
    let mut reader = Reader::new(&bytes);
    let r: std::ops::Range<i64> = reader.read_value().unwrap();
    assert_eq!(r, -5..7);
    let bytes = encode(&(1i64..=3i64));
    let mut reader = Reader::new(&bytes);
    let r: std::ops::RangeInclusive<i64> = reader.read_value().unwrap();
    assert_eq!(r, 1..=3);
}

#[test]
fn boxed_values_round_trip() {
    let bytes = encode(&Box::new(42u32));
    assert_eq!(bytes, vec![0, 0, 0, 42]);
    let mut reader = Reader::new(&bytes);
    let b: Box<u32> = reader.read_value().unwrap();
    assert_eq!(*b, 42);
}

#[test]
fn sha256_of_encoded_string() {
    let expected: [u8; 32] = [
        233, 156, 93, 137, 105, 74, 202, 168, 229, 58, 64, 126, 8, 238, 253, 214, 51, 20, 115,
        99, 183, 140, 62, 228, 45, 244, 108, 40, 2, 105, 215, 176,
    ];
    assert_eq!(deterministic::sha256("hello, world!"), expected);
    assert_eq!(deterministic::sha256_64("hello, world!"), 0x124602bcd441de2a);
}

#[test]
fn sha256_hasher_of_nothing() {
    let hasher = Sha256Hasher::default();
    let digest = hasher.finish();
    assert_eq!(digest, 0xfa70e8751d5a8e29);
    let expected = [
        0xe3u8, 0xb0, 0xc4, 0x42, 0x98, 0xfc, 0x1c, 0x14, 0x9a, 0xfb, 0xf4, 0xc8, 0x99, 0x6f,
        0xb9, 0x24, 0x27, 0xae, 0x41, 0xe4, 0x64, 0x9b, 0x93, 0x4c, 0xa4, 0x95, 0x99, 0x1b, 0x78,
        0x52, 0xb8, 0x55,
    ];
    assert_eq!(Sha256Hasher::default().finalize(), expected);
}

#[test]
fn blake3_hasher_known_values() {
    let empty = Blake3Hasher::default();
    assert_eq!(empty.finish(), 0x5802b2508afb483a);
    let mut abc = Blake3Hasher::default();
    abc.write(b"abc");
    let expected = [
        0x64u8, 0x37, 0xb3, 0xac, 0x38, 0x46, 0x51, 0x33, 0xff, 0xb6, 0x3b, 0x75, 0x27, 0x3a,
        0x8d, 0xb5, 0x48, 0xc5, 0x58, 0x46, 0x5d, 0x79, 0xdb, 0x03, 0xfd, 0x35, 0x9c, 0x6c, 0xd5,
        0xbd, 0x9d, 0x85,
    ];
    assert_eq!(abc.finalize(), expected);
}

#[test]
fn blake3_deterministic_matches_hasher() {
    let mut hasher = Blake3Hasher::default();
    hasher.write(&[0, 0, 0, 42]);
    assert_eq!(deterministic::blake3(42u32), hasher.finalize());
    assert_eq!(deterministic::blake3_64(42u32), hasher.finish());
}

#[test]
fn xxhash_known_values() {
    assert_eq!(deterministic::xxhash32("hello, world!"), 0xcf77f8f9);
    assert_eq!(deterministic::xxhash32_64("hello, world!"), 0xcf77f8f9u64);
    assert_eq!(deterministic::xxhash64("hello, world!"), 0x96818a605ee11ea5);
    assert_eq!(deterministic::xxhash32(42u32), 0x7c9c82ec);
    assert_eq!(deterministic::xxhash64(42u32), 0x7b3e61f9c8139d26);
}

#[test]
fn hashes_are_deterministic() {
    assert_eq!(deterministic::sha256((1u8, true, 'x')), deterministic::sha256((1u8, true, 'x')));
    assert_ne!(deterministic::xxhash64(1u32), deterministic::xxhash64(2u32));
}

#[test]
fn xor_bits_is_parity() {
    assert!(!xor_bits(0));
    assert!(xor_bits(1));
    assert!(!xor_bits(3));
    assert!(xor_bits(7));
    assert!(!xor_bits(u64::MAX));
}

#[test]
fn seeds_hash_the_seed_bytes() {
    let mut bytes = Vec::new();
    7u32.write(&mut bytes);
    assert_eq!(bytes, vec![0, 0, 0, 7]);
    let mut hasher = Blake3Hasher::default();
    hasher.write(&bytes);
    assert_eq!(7u32.seed(), hasher.finalize());
    assert_ne!(7u32.seed(), 8u32.seed());
    let mut chars = Vec::new();
    'A'.write(&mut chars);
    assert_eq!(chars, vec![0x41, 0, 0, 0]);
    let mut strs = Vec::new();
    "ab".write(&mut strs);
    assert_eq!(strs, vec![b'a', b'b']);
}

#[test]
fn u24_round_trips() {
    for value in [0u32, 1, 0x1234, 0xabcdef, 0xffffff] {
        let mut bytes = Vec::new();
        assert_eq!(write_u24(&mut bytes, value), Ok(3));
        bytes.push(0x55);
        let mut reader = Reader::new(&bytes);
        assert_eq!(read_u24(&mut reader), Ok(value));
        assert_eq!(reader.remaining(), 1);
    }
    let mut bytes = Vec::new();
    assert_eq!(write_u24(&mut bytes, 0x100_0000), Err(Error::U24OutOfRange));
    assert!(bytes.is_empty());
}

#[test]
fn folding_256_bits_xors_the_four_words() {
    let bytes: Vec<u8> = (0..32u32).map(|i| ((i * 37 + 11) % 256) as u8).collect();
    assert_eq!(xor_256_to_64(&bytes), 0xe04040e0a000a0e0);
    assert_eq!(xor_256_to_64(&[0u8; 32]), 0);
}

#[test]
fn sha256_hashes_exactly_the_encoding() {
    let mut bytes = vec![0u8, 0, 13];
    bytes.extend_from_slice(b"hello, world!");
    let direct: [u8; 32] = <sha2::Sha256 as sha2::Digest>::digest(&bytes).into();
    assert_eq!(deterministic::sha256("hello, world!"), direct);
    assert_eq!(deterministic::sha256_64("hello, world!"), xor_256_to_64(&direct));
}
