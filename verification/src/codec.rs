//! Wire formats of the key/value marshaling example.
//!
//! Keys travel as a fixed 16-byte field: the ASCII template `"key: "`
//! followed by the key's decimal digits, right-justified over ten ASCII
//! zeros, with a NUL terminator in the last byte.  Values travel as
//! four-byte little-endian two's-complement 32-bit integers.

use vstd::prelude::*;
use vstd::arithmetic::div_mod::{
    lemma_div_denominator, lemma_div_is_ordered_by_denominator, lemma_fundamental_div_mod,
    lemma_mod_add_multiples_vanish, lemma_small_mod,
};

verus! {

/// Ten to the power `k`.
pub open spec fn pow10(k: nat) -> nat
    decreases k,
{
    if k == 0 {
        1
    } else {
        10 * pow10((k - 1) as nat)
    }
}

/// The ASCII digit of `key` at digit position `j` of the ten-digit,
/// zero-padded decimal rendering (position 0 is the most significant).
pub open spec fn key_digit(key: u32, j: int) -> u8 {
    (0x30 + (key as nat / pow10((9 - j) as nat)) % 10) as u8
}

/// The full 16-byte key field: `"key: "`, ten decimal digits, NUL.
pub open spec fn key_field(key: u32) -> Seq<u8> {
    Seq::new(
        16,
        |i: int|
            if i == 0 {
                107u8  // 'k'
            } else if i == 1 {
                101u8  // 'e'
            } else if i == 2 {
                121u8  // 'y'
            } else if i == 3 {
                58u8  // ':'
            } else if i == 4 {
                32u8  // ' '
            } else if i < 15 {
                key_digit(key, i - 5)
            } else {
                0u8
            },
    )
}

/// The key bytes as stored: the field without its NUL terminator.
pub open spec fn key_repr(key: u32) -> Seq<u8> {
    key_field(key).subrange(0, 15)
}

pub proof fn lemma_pow10_pos(k: nat)
    ensures
        pow10(k) >= 1,
    decreases k,
{
    if k > 0 {
        lemma_pow10_pos((k - 1) as nat);
    }
}

pub proof fn lemma_pow10_mono(a: nat, b: nat)
    requires
        a <= b,
    ensures
        pow10(a) <= pow10(b),
    decreases b,
{
    if a < b {
        lemma_pow10_mono(a, (b - 1) as nat);
        lemma_pow10_pos((b - 1) as nat);
    }
}

/// Every digit position of the key field holds an ASCII digit, so every
/// byte of the key representation is nonzero while the terminator is zero.
pub proof fn lemma_key_field_shape(key: u32)
    ensures
        key_field(key).len() == 16,
        forall|i: int| 0 <= i < 15 ==> key_field(key)[i] != 0u8,
        key_field(key)[15] == 0u8,
{
    assert forall|i: int| 0 <= i < 15 implies key_field(key)[i] != 0u8 by {
        if 5 <= i < 15 {
            lemma_pow10_pos((14 - i) as nat);
            assert(key_digit(key, i - 5) >= 0x30);
        }
    }
}

/// Encodes `key` as the fixed-width, NUL-terminated decimal field: the
/// template is written first and the decimal digits are then written from
/// the least significant position leftward, the template's zeros serving
/// as padding.  Ten digit slots hold every 32-bit key, so the write cursor
/// never reaches the template prefix.
pub fn key_to_str(key: u32) -> (r: Vec<u8>)
    ensures
        r@ == key_field(key),
{
    let mut v: Vec<u8> = Vec::new();
    v.push(107u8);
    v.push(101u8);
    v.push(121u8);
    v.push(58u8);
    v.push(32u8);
    let mut z: usize = 0;
    while z < 10
        invariant
            0 <= z <= 10,
            v@.len() == 5 + z,
            v@[0] == 107u8 && v@[1] == 101u8 && v@[2] == 121u8 && v@[3] == 58u8
                && v@[4] == 32u8,
            forall|i: int| 5 <= i < 5 + z ==> v@[i] == 48u8,
        decreases 10 - z,
    {
        v.push(48u8);
        z += 1;
    }
    v.push(0u8);
    let mut pos: usize = 14;
    let mut mkey: u32 = key;
    proof {
        vstd::arithmetic::div_mod::lemma_div_basics(key as int);
        assert(key as nat / pow10(0) == key as nat);
    }
    while mkey > 0
        invariant
            4 <= pos <= 14,
            v@.len() == 16,
            mkey as nat == key as nat / pow10((14 - pos) as nat),
            v@[0] == 107u8 && v@[1] == 101u8 && v@[2] == 121u8 && v@[3] == 58u8
                && v@[4] == 32u8,
            v@[15] == 0u8,
            forall|i: int| 5 <= i <= pos ==> v@[i] == 48u8,
            forall|i: int| pos < i < 15 ==> v@[i] == key_digit(key, i - 5),
            mkey > 0 ==> pos >= 5,
        decreases mkey,
    {
        let digit: u8 = (mkey % 10) as u8;
        v[pos] = 48u8 + digit;
        proof {
            assert(key_digit(key, pos - 5) == (0x30 + (key as nat / pow10((14 - pos) as nat))
                % 10) as u8);
            assert((mkey % 10) as nat == (mkey as nat) % 10);
        }
        let ghost k: nat = (14 - pos) as nat;
        pos = pos - 1;
        mkey = mkey / 10;
        proof {
            lemma_pow10_pos(k);
            lemma_div_denominator(key as int, pow10(k) as int, 10);
            assert(pow10(k + 1) == 10 * pow10(k));
            assert(pow10(k) * 10 == 10 * pow10(k));
            assert(mkey as nat == key as nat / pow10((14 - pos) as nat));
            // if the ten digit slots are exhausted, the remaining quotient
            // is zero, because every 32-bit key has at most ten digits
            if pos == 4 {
                assert(pow10(10) == 10000000000) by {
                    reveal_with_fuel(pow10, 11);
                }
                assert(key as nat / pow10(10) == 0) by {
                    vstd::arithmetic::div_mod::lemma_basic_div(key as int, pow10(10) as int);
                }
            }
        }
    }
    proof {
        assert forall|i: int| 5 <= i <= pos implies v@[i] == key_digit(key, i - 5) by {
            lemma_pow10_pos((14 - i) as nat);
            lemma_pow10_pos((14 - pos) as nat);
            lemma_pow10_mono((14 - pos) as nat, (14 - i) as nat);
            lemma_div_is_ordered_by_denominator(
                key as int,
                pow10((14 - pos) as nat) as int,
                pow10((14 - i) as nat) as int,
            );
            assert(key as nat / pow10((14 - i) as nat) == 0);
            assert(key_digit(key, i - 5) == 48u8);
        }
        assert(v@ =~= key_field(key));
    }
    v
}

/// The unsigned 32-bit pattern whose two's-complement reading is `v`.
pub open spec fn u32_of_i32(v: i32) -> nat {
    if v >= 0 {
        v as nat
    } else {
        (v + 0x1_0000_0000) as nat
    }
}

/// The two's-complement reading of an unsigned 32-bit pattern.
pub open spec fn i32_of_bits(n: nat) -> int {
    if n < 0x8000_0000 {
        n as int
    } else {
        n - 0x1_0000_0000
    }
}

/// The 32-bit wrap-around of an unbounded integer.
pub open spec fn wrap_i32(v: int) -> int {
    i32_of_bits((v % 0x1_0000_0000) as nat)
}

/// The four little-endian bytes of `v`.
pub open spec fn le_bytes_of_i32(v: i32) -> Seq<u8> {
    seq![
        (u32_of_i32(v) % 256) as u8,
        ((u32_of_i32(v) / 256) % 256) as u8,
        ((u32_of_i32(v) / 65536) % 256) as u8,
        ((u32_of_i32(v) / 16777216) % 256) as u8,
    ]
}

/// The 32-bit integer read from the first four bytes, least significant
/// first.
pub open spec fn i32_from_le_bytes(b: Seq<u8>) -> int {
    i32_of_bits((b[0] + b[1] * 256 + b[2] * 65536 + b[3] * 16777216) as nat)
}

/// Relies on `byteorder::LittleEndian::write_i32`: it stores the value's
/// two's-complement bits into the buffer's four bytes, least significant
/// byte first.
#[verifier::external_body]
pub(crate) fn le_encode_i32(v: i32) -> (r: Vec<u8>)
    ensures
        r@ == le_bytes_of_i32(v),
{
    let mut buf = vec![0u8; 4];
    <byteorder::LittleEndian as byteorder::ByteOrder>::write_i32(&mut buf, v);
    buf
}

/// Relies on `byteorder::LittleEndian::read_i32`: it reads the buffer's
/// four bytes as a little-endian two's-complement 32-bit integer.
#[verifier::external_body]
pub(crate) fn le_decode_i32(b: &Vec<u8>) -> (r: i32)
    requires
        b@.len() == 4,
    ensures
        r as int == i32_from_le_bytes(b@),
{
    <byteorder::LittleEndian as byteorder::ByteOrder>::read_i32(b)
}

/// Law: decoding the four little-endian bytes of a value returns the value
/// (the value wire format round-trips).
pub proof fn lemma_le_roundtrip(v: i32)
    ensures
        i32_from_le_bytes(le_bytes_of_i32(v)) == v as int,
{
    let u = u32_of_i32(v) as int;
    assert(0 <= u < 0x1_0000_0000);
    let q0 = u / 256;
    let q1 = u / 65536;
    let q2 = u / 16777216;
    lemma_div_denominator(u, 256, 256);
    assert(q0 / 256 == q1);
    lemma_div_denominator(u, 65536, 256);
    assert(q1 / 256 == q2);
    lemma_fundamental_div_mod(u, 256);
    lemma_fundamental_div_mod(q0, 256);
    lemma_fundamental_div_mod(q1, 256);
    assert(q2 < 256) by {
        lemma_div_is_ordered_by_denominator(u, 16777216, 16777216);
        assert(u / 16777216 <= 0xFFFF_FFFFint / 16777216) by (nonlinear_arith)
            requires
                0 <= u <= 0xFFFF_FFFFint,
        ;
        assert(0xFFFF_FFFFint / 16777216 == 255);
    }
    lemma_small_mod(q2 as nat, 256);
    assert(u % 256 + (q0 % 256) * 256 + (q1 % 256) * 65536 + (q2 % 256) * 16777216 == u);
}

/// Law: wrap-around is the identity on every value already in 32-bit
/// signed range.
pub proof fn lemma_wrap_identity(v: int)
    requires
        -0x8000_0000 <= v < 0x8000_0000,
    ensures
        wrap_i32(v) == v,
{
    if v >= 0 {
        lemma_small_mod(v as nat, 0x1_0000_0000);
    } else {
        lemma_mod_add_multiples_vanish(v, 0x1_0000_0000);
        lemma_small_mod((v + 0x1_0000_0000) as nat, 0x1_0000_0000);
    }
}

/// The unsigned pattern of a value is its residue modulo two to the 32.
pub proof fn lemma_bits_are_mod(v: i32)
    ensures
        u32_of_i32(v) == (v as int) % 0x1_0000_0000,
{
    if v >= 0 {
        lemma_small_mod(v as nat, 0x1_0000_0000);
    } else {
        lemma_mod_add_multiples_vanish(v as int, 0x1_0000_0000);
        lemma_small_mod((v + 0x1_0000_0000) as nat, 0x1_0000_0000);
    }
}

/// Reinterprets a signed 32-bit value as its unsigned bit pattern.
pub fn bits_of_i32(v: i32) -> (r: u32)
    ensures
        r as nat == u32_of_i32(v),
{
    if v >= 0 {
        v as u32
    } else {
        ((v as i64) + 0x1_0000_0000i64) as u32
    }
}

/// Reinterprets an unsigned 32-bit pattern as its signed reading.
pub fn i32_from_bits(n: u32) -> (r: i32)
    ensures
        r as int == i32_of_bits(n as nat),
{
    if n < 0x8000_0000 {
        n as i32
    } else {
        ((n as i64) - 0x1_0000_0000i64) as i32
    }
}

} // verus!
