//! Little-endian layout of the 64-bit signed timestamp.

use vstd::bytes::{
    lemma_auto_spec_u64_to_from_le_bytes, spec_u64_from_le_bytes, spec_u64_to_le_bytes,
    spec_u64_to_le_bytes_open, spec_u64_to_le_bytes_to_open, u64_from_le_bytes, u64_to_le_bytes,
};
use vstd::prelude::*;

verus! {

/// The unsigned number that eight bytes hold, least significant byte first.
pub open spec fn le_value(s: Seq<u8>) -> int
    recommends
        s.len() == 8,
{
    s[0] as int + s[1] as int * 0x100 + s[2] as int * 0x1_0000 + s[3] as int * 0x100_0000 + s[4] as int
        * 0x1_0000_0000 + s[5] as int * 0x100_0000_0000 + s[6] as int * 0x1_0000_0000_0000
        + s[7] as int * 0x100_0000_0000_0000
}

/// The signed integer that eight little-endian bytes hold in two's complement.
pub open spec fn i64_from_le_bytes(s: Seq<u8>) -> i64
    recommends
        s.len() == 8,
{
    if le_value(s) < 0x8000_0000_0000_0000 {
        le_value(s) as i64
    } else {
        (le_value(s) - 0x1_0000_0000_0000_0000) as i64
    }
}

/// The unsigned number with the bits of `x` in two's complement.
pub open spec fn unsigned_bits(x: i64) -> int {
    if x >= 0 {
        x as int
    } else {
        x + 0x1_0000_0000_0000_0000
    }
}

/// The eight bytes that hold `x` in two's complement, least significant byte first.
pub open spec fn i64_le_bytes(x: i64) -> Seq<u8> {
    let u = unsigned_bits(x);
    seq![
        (u % 0x100) as u8,
        (u / 0x100 % 0x100) as u8,
        (u / 0x1_0000 % 0x100) as u8,
        (u / 0x100_0000 % 0x100) as u8,
        (u / 0x1_0000_0000 % 0x100) as u8,
        (u / 0x100_0000_0000 % 0x100) as u8,
        (u / 0x1_0000_0000_0000 % 0x100) as u8,
        (u / 0x100_0000_0000_0000 % 0x100) as u8,
    ]
}

proof fn lemma_bits_of_cast(x: i64)
    ensures
        (x as u64) as int == unsigned_bits(x),
{
    assert(x >= 0 ==> (x as u64) == x) by (bit_vector);
    assert(x < 0 ==> (x as u64) == x + 0x1_0000_0000_0000_0000) by (bit_vector);
}

proof fn lemma_cast_of_bits(u: u64)
    ensures
        u < 0x8000_0000_0000_0000 ==> (u as i64) == u,
        u >= 0x8000_0000_0000_0000 ==> (u as i64) == u - 0x1_0000_0000_0000_0000,
{
    assert(u < 0x8000_0000_0000_0000 ==> (u as i64) == u) by (bit_vector);
    assert(u >= 0x8000_0000_0000_0000 ==> (u as i64) == u - 0x1_0000_0000_0000_0000)
        by (bit_vector);
}

proof fn lemma_bytes_of_u64(u: u64)
    ensures
        spec_u64_to_le_bytes(u) == seq![
            (u % 0x100) as u8,
            (u / 0x100 % 0x100) as u8,
            (u / 0x1_0000 % 0x100) as u8,
            (u / 0x100_0000 % 0x100) as u8,
            (u / 0x1_0000_0000 % 0x100) as u8,
            (u / 0x100_0000_0000 % 0x100) as u8,
            (u / 0x1_0000_0000_0000 % 0x100) as u8,
            (u / 0x100_0000_0000_0000 % 0x100) as u8,
        ],
{
    spec_u64_to_le_bytes_to_open(u);
    assert(u & 0xff == u % 0x100) by (bit_vector);
    assert((u >> 8) & 0xff == u / 0x100 % 0x100) by (bit_vector);
    assert((u >> 16) & 0xff == u / 0x1_0000 % 0x100) by (bit_vector);
    assert((u >> 24) & 0xff == u / 0x100_0000 % 0x100) by (bit_vector);
    assert((u >> 32) & 0xff == u / 0x1_0000_0000 % 0x100) by (bit_vector);
    assert((u >> 40) & 0xff == u / 0x100_0000_0000 % 0x100) by (bit_vector);
    assert((u >> 48) & 0xff == u / 0x1_0000_0000_0000 % 0x100) by (bit_vector);
    assert((u >> 56) & 0xff == u / 0x100_0000_0000_0000 % 0x100) by (bit_vector);
    let s = spec_u64_to_le_bytes_open(u);
    assert(s =~= seq![
        (u % 0x100) as u8,
        (u / 0x100 % 0x100) as u8,
        (u / 0x1_0000 % 0x100) as u8,
        (u / 0x100_0000 % 0x100) as u8,
        (u / 0x1_0000_0000 % 0x100) as u8,
        (u / 0x100_0000_0000 % 0x100) as u8,
        (u / 0x1_0000_0000_0000 % 0x100) as u8,
        (u / 0x100_0000_0000_0000 % 0x100) as u8,
    ]);
}

proof fn lemma_value_of_bytes_of_u64(u: u64)
    ensures
        le_value(spec_u64_to_le_bytes(u)) == u,
{
    lemma_bytes_of_u64(u);
    let b0 = u % 0x100;
    let b1 = u / 0x100 % 0x100;
    let b2 = u / 0x1_0000 % 0x100;
    let b3 = u / 0x100_0000 % 0x100;
    let b4 = u / 0x1_0000_0000 % 0x100;
    let b5 = u / 0x100_0000_0000 % 0x100;
    let b6 = u / 0x1_0000_0000_0000 % 0x100;
    let b7 = u / 0x100_0000_0000_0000 % 0x100;
    assert(u == b0 + b1 * 0x100 + b2 * 0x1_0000 + b3 * 0x100_0000 + b4 * 0x1_0000_0000 + b5
        * 0x100_0000_0000 + b6 * 0x1_0000_0000_0000 + b7 * 0x100_0000_0000_0000) by (bit_vector)
        requires
            b0 == u % 0x100,
            b1 == u / 0x100 % 0x100,
            b2 == u / 0x1_0000 % 0x100,
            b3 == u / 0x100_0000 % 0x100,
            b4 == u / 0x1_0000_0000 % 0x100,
            b5 == u / 0x100_0000_0000 % 0x100,
            b6 == u / 0x1_0000_0000_0000 % 0x100,
            b7 == u / 0x100_0000_0000_0000 % 0x100,
    ;
    let s = spec_u64_to_le_bytes(u);
    assert(s[0] == b0 && s[1] == b1 && s[2] == b2 && s[3] == b3);
    assert(s[4] == b4 && s[5] == b5 && s[6] == b6 && s[7] == b7);
}

proof fn lemma_value_of_u64(s: Seq<u8>)
    requires
        s.len() == 8,
    ensures
        spec_u64_from_le_bytes(s) as int == le_value(s),
{
    lemma_auto_spec_u64_to_from_le_bytes();
    let u = spec_u64_from_le_bytes(s);
    assert(spec_u64_to_le_bytes(u) == s);
    lemma_value_of_bytes_of_u64(u);
}

proof fn lemma_written_as_u64(x: i64)
    ensures
        i64_le_bytes(x) == spec_u64_to_le_bytes(x as u64),
{
    lemma_bits_of_cast(x);
    lemma_bytes_of_u64(x as u64);
}

proof fn lemma_read_as_u64(s: Seq<u8>)
    requires
        s.len() == 8,
    ensures
        i64_from_le_bytes(s) == spec_u64_from_le_bytes(s) as i64,
{
    lemma_value_of_u64(s);
    lemma_cast_of_bits(spec_u64_from_le_bytes(s));
}

/// Writing an integer and reading it back gives the same integer.
pub proof fn lemma_i64_write_read(x: i64)
    ensures
        i64_le_bytes(x).len() == 8,
        i64_from_le_bytes(i64_le_bytes(x)) == x,
{
    lemma_auto_spec_u64_to_from_le_bytes();
    lemma_written_as_u64(x);
    lemma_read_as_u64(i64_le_bytes(x));
    assert((x as u64) as i64 == x) by (bit_vector);
}

/// Reading eight bytes and writing the integer back gives the same bytes.
pub proof fn lemma_i64_read_write(s: Seq<u8>)
    requires
        s.len() == 8,
    ensures
        i64_le_bytes(i64_from_le_bytes(s)) == s,
{
    lemma_auto_spec_u64_to_from_le_bytes();
    lemma_read_as_u64(s);
    lemma_written_as_u64(i64_from_le_bytes(s));
    let u: u64 = spec_u64_from_le_bytes(s);
    assert((u as i64) as u64 == u) by (bit_vector);
}

/// Reads a little-endian signed integer from exactly eight bytes.
pub fn read_i64_le(bytes: &[u8]) -> (x: i64)
    requires
        bytes@.len() == 8,
    ensures
        x == i64_from_le_bytes(bytes@),
{
    proof {
        lemma_read_as_u64(bytes@);
    }
    let u: u64 = u64_from_le_bytes(bytes);
    u as i64
}

/// Writes a signed integer as eight little-endian bytes.
pub fn write_i64_le(x: i64) -> (bytes: Vec<u8>)
    ensures
        bytes@ == i64_le_bytes(x),
        bytes@.len() == 8,
{
    proof {
        lemma_written_as_u64(x);
    }
    u64_to_le_bytes(x as u64)
}

} // verus!
