//! Byte-level encodings of the primitive field types.
//!
//! Every field of an instruction or a record is one of six primitives: a tag
//! byte, a `u64`, an `i64`, a `bool`, a length-prefixed UTF-8 string, or a
//! 32-byte key. This module says, as spec functions over byte sequences, how
//! each of them is written and how each is read back from the front of an
//! input, and proves that reading undoes writing and writing undoes reading.
//!
//! The executable readers and writers are thin calls into `borsh`; their
//! contracts are the only unproved statements of this module.

use borsh::BorshDeserialize;
use borsh::BorshSerialize;
use vstd::prelude::*;
use vstd::utf8::*;

verus! {

/// Width in bytes of a key.
pub const KEY_LEN: usize = 32;

/// `256` to the power `n`: the number of values that `n` bytes can spell.
pub open spec fn radix(n: nat) -> nat
    decreases n,
{
    if n == 0 {
        1
    } else {
        256 * radix((n - 1) as nat)
    }
}

/// The `n` low-order bytes of `x`, least significant byte first.
pub open spec fn le_bytes(x: nat, n: nat) -> Seq<u8>
    decreases n,
{
    if n == 0 {
        Seq::empty()
    } else {
        seq![(x % 256) as u8] + le_bytes(x / 256, (n - 1) as nat)
    }
}

/// The number spelled by `b`, least significant byte first.
pub open spec fn le_value(b: Seq<u8>) -> nat
    decreases b.len(),
{
    if b.len() == 0 {
        0
    } else {
        b[0] as nat + 256 * le_value(b.skip(1))
    }
}

/// The unsigned number whose 64-bit pattern is that of `v` in two's complement.
pub open spec fn unsigned64(v: i64) -> nat {
    if v >= 0 {
        v as nat
    } else {
        (v + 0x1_0000_0000_0000_0000) as nat
    }
}

/// The signed number whose two's complement 64-bit pattern is `n`.
pub open spec fn signed64(n: nat) -> int {
    if n < 0x8000_0000_0000_0000 {
        n as int
    } else {
        n - 0x1_0000_0000_0000_0000
    }
}

/// A tag is written as itself.
pub open spec fn u8_bytes(v: u8) -> Seq<u8> {
    seq![v]
}

/// A `u64` is written as eight bytes, least significant first.
pub open spec fn u64_bytes(v: u64) -> Seq<u8> {
    le_bytes(v as nat, 8)
}

/// An `i64` is written as the eight bytes of its two's complement pattern.
pub open spec fn i64_bytes(v: i64) -> Seq<u8> {
    le_bytes(unsigned64(v), 8)
}

/// A `bool` is written as one byte, `1` for true and `0` for false.
pub open spec fn bool_bytes(v: bool) -> Seq<u8> {
    seq![if v { 1u8 } else { 0u8 }]
}

/// The length of a string in bytes: that of its UTF-8 form.
pub open spec fn byte_len(s: Seq<char>) -> nat {
    encode_utf8(s).len()
}

/// Whether a string is short enough for a four-byte length prefix.
pub open spec fn string_fits(s: Seq<char>) -> bool {
    byte_len(s) <= u32::MAX
}

/// A string is written as its length in bytes, in four bytes, least
/// significant first, followed by its UTF-8 form.
pub open spec fn string_bytes(s: Seq<char>) -> Seq<u8> {
    le_bytes(byte_len(s), 4) + encode_utf8(s)
}

/// Reads a tag from the front of `b`.
pub open spec fn parse_u8(b: Seq<u8>) -> Option<(u8, Seq<u8>)> {
    if b.len() >= 1 {
        Some((b[0], b.skip(1)))
    } else {
        None
    }
}

/// Reads a `u64` from the front of `b`.
pub open spec fn parse_u64(b: Seq<u8>) -> Option<(u64, Seq<u8>)> {
    if b.len() >= 8 {
        Some((le_value(b.take(8)) as u64, b.skip(8)))
    } else {
        None
    }
}

/// Reads an `i64` from the front of `b`.
pub open spec fn parse_i64(b: Seq<u8>) -> Option<(i64, Seq<u8>)> {
    if b.len() >= 8 {
        Some((signed64(le_value(b.take(8))) as i64, b.skip(8)))
    } else {
        None
    }
}

/// Reads a `bool` from the front of `b`; any byte other than `0` and `1` is refused.
pub open spec fn parse_bool(b: Seq<u8>) -> Option<(bool, Seq<u8>)> {
    if b.len() >= 1 && b[0] <= 1 {
        Some((b[0] == 1, b.skip(1)))
    } else {
        None
    }
}

/// Reads a string from the front of `b`: a four-byte length, then that many
/// bytes, which must be well-formed UTF-8.
pub open spec fn parse_string(b: Seq<u8>) -> Option<(Seq<char>, Seq<u8>)> {
    if b.len() < 4 {
        None
    } else {
        let n = le_value(b.take(4)) as int;
        if b.len() - 4 < n || !valid_utf8(b.subrange(4, 4 + n)) {
            None
        } else {
            Some((decode_utf8(b.subrange(4, 4 + n)), b.skip(4 + n)))
        }
    }
}

/// Reads a key from the front of `b`.
pub open spec fn parse_key(b: Seq<u8>) -> Option<(Seq<u8>, Seq<u8>)> {
    if b.len() >= KEY_LEN {
        Some((b.take(KEY_LEN as int), b.skip(KEY_LEN as int)))
    } else {
        None
    }
}

/// What four and eight bytes can spell.
pub proof fn lemma_radix_values()
    ensures
        radix(4) == 0x1_0000_0000,
        radix(8) == 0x1_0000_0000_0000_0000,
{
    reveal_with_fuel(radix, 9);
}

/// Writing at width `n` gives `n` bytes.
pub proof fn lemma_le_bytes_len(x: nat, n: nat)
    ensures
        le_bytes(x, n).len() == n,
    decreases n,
{
    if n > 0 {
        lemma_le_bytes_len(x / 256, (n - 1) as nat);
    }
}

/// What `b` spells is below the number of values of its width.
pub proof fn lemma_le_value_bound(b: Seq<u8>)
    ensures
        le_value(b) < radix(b.len()),
    decreases b.len(),
{
    if b.len() > 0 {
        lemma_le_value_bound(b.skip(1));
    }
}

/// Reading the `n` bytes written for `x` gives `x` back.
pub proof fn lemma_le_value_of_bytes(x: nat, n: nat)
    requires
        x < radix(n),
    ensures
        le_value(le_bytes(x, n)) == x,
    decreases n,
{
    if n > 0 {
        let m = (n - 1) as nat;
        let b = le_bytes(x, n);
        lemma_le_bytes_len(x, n);
        assert(x / 256 < radix(m)) by (nonlinear_arith)
            requires
                x < 256 * radix(m),
        ;
        lemma_le_value_of_bytes(x / 256, m);
        assert(b.skip(1) =~= le_bytes(x / 256, m));
        assert(b[0] == (x % 256) as u8);
        assert(x == (x % 256) + 256 * (x / 256)) by (nonlinear_arith);
    }
}

/// Writing the number that `b` spells, at the width of `b`, gives `b` back.
pub proof fn lemma_le_bytes_of_value(b: Seq<u8>)
    ensures
        le_bytes(le_value(b), b.len()) == b,
    decreases b.len(),
{
    if b.len() > 0 {
        let x = le_value(b);
        let t = le_value(b.skip(1));
        lemma_le_bytes_of_value(b.skip(1));
        assert(x % 256 == b[0] as nat && x / 256 == t) by (nonlinear_arith)
            requires
                x == b[0] as nat + 256 * t,
                b[0] < 256,
        ;
        assert(le_bytes(x, b.len()) =~= b);
    } else {
        assert(le_bytes(le_value(b), b.len()) =~= b);
    }
}

/// Joining byte runs does not depend on how they are grouped.
pub proof fn lemma_concat_assoc(a: Seq<u8>, b: Seq<u8>, c: Seq<u8>)
    ensures
        a + (b + c) == (a + b) + c,
{
    assert(a + (b + c) =~= (a + b) + c);
}

/// Reading what was written for a tag gives the tag and what followed it.
pub proof fn lemma_parse_u8_bytes(v: u8, tail: Seq<u8>)
    ensures
        parse_u8(u8_bytes(v) + tail) == Some((v, tail)),
{
    assert((u8_bytes(v) + tail).skip(1) =~= tail);
}

/// An input from which a tag was read is that tag as written, then the rest.
pub proof fn lemma_parse_u8_inverse(b: Seq<u8>)
    ensures
        parse_u8(b) matches Some((v, rest)) ==> b == u8_bytes(v) + rest,
{
    if parse_u8(b) is Some {
        assert(b =~= u8_bytes(b[0]) + b.skip(1));
    }
}

/// Reading what was written for a `u64` gives it and what followed it.
pub proof fn lemma_parse_u64_bytes(v: u64, tail: Seq<u8>)
    ensures
        parse_u64(u64_bytes(v) + tail) == Some((v, tail)),
{
    let b = u64_bytes(v) + tail;
    lemma_radix_values();
    lemma_le_bytes_len(v as nat, 8);
    lemma_le_value_of_bytes(v as nat, 8);
    assert(b.take(8) =~= u64_bytes(v));
    assert(b.skip(8) =~= tail);
}

/// An input from which a `u64` was read is that number as written, then the rest.
pub proof fn lemma_parse_u64_inverse(b: Seq<u8>)
    ensures
        parse_u64(b) matches Some((v, rest)) ==> b == u64_bytes(v) + rest,
{
    if parse_u64(b) is Some {
        lemma_radix_values();
        lemma_le_value_bound(b.take(8));
        lemma_le_bytes_of_value(b.take(8));
        assert(b =~= b.take(8) + b.skip(8));
    }
}

/// Reading what was written for an `i64` gives it and what followed it.
pub proof fn lemma_parse_i64_bytes(v: i64, tail: Seq<u8>)
    ensures
        parse_i64(i64_bytes(v) + tail) == Some((v, tail)),
{
    let b = i64_bytes(v) + tail;
    lemma_radix_values();
    lemma_le_bytes_len(unsigned64(v), 8);
    lemma_le_value_of_bytes(unsigned64(v), 8);
    assert(b.take(8) =~= i64_bytes(v));
    assert(b.skip(8) =~= tail);
}

/// An input from which an `i64` was read is that number as written, then the rest.
pub proof fn lemma_parse_i64_inverse(b: Seq<u8>)
    ensures
        parse_i64(b) matches Some((v, rest)) ==> b == i64_bytes(v) + rest,
{
    if parse_i64(b) is Some {
        lemma_radix_values();
        lemma_le_value_bound(b.take(8));
        lemma_le_bytes_of_value(b.take(8));
        let n = le_value(b.take(8));
        assert(unsigned64(signed64(n) as i64) == n);
        assert(b =~= b.take(8) + b.skip(8));
    }
}

/// Reading what was written for a `bool` gives it and what followed it.
pub proof fn lemma_parse_bool_bytes(v: bool, tail: Seq<u8>)
    ensures
        parse_bool(bool_bytes(v) + tail) == Some((v, tail)),
{
    assert((bool_bytes(v) + tail).skip(1) =~= tail);
}

/// An input from which a `bool` was read is that value as written, then the rest.
pub proof fn lemma_parse_bool_inverse(b: Seq<u8>)
    ensures
        parse_bool(b) matches Some((v, rest)) ==> b == bool_bytes(v) + rest,
{
    if parse_bool(b) is Some {
        assert(b =~= bool_bytes(b[0] == 1) + b.skip(1));
    }
}

/// A written string takes four bytes more than its UTF-8 form.
pub proof fn lemma_string_bytes_len(s: Seq<char>)
    ensures
        string_bytes(s).len() == 4 + byte_len(s),
{
    lemma_le_bytes_len(byte_len(s), 4);
}

/// Reading what was written for a string gives it and what followed it.
pub proof fn lemma_parse_string_bytes(s: Seq<char>, tail: Seq<u8>)
    requires
        string_fits(s),
    ensures
        parse_string(string_bytes(s) + tail) == Some((s, tail)),
{
    let body = encode_utf8(s);
    let n = body.len() as int;
    let b = string_bytes(s) + tail;
    lemma_radix_values();
    lemma_le_bytes_len(body.len(), 4);
    lemma_le_value_of_bytes(body.len(), 4);
    assert(b.take(4) =~= le_bytes(body.len(), 4));
    assert(b.subrange(4, 4 + n) =~= body);
    assert(b.skip(4 + n) =~= tail);
    encode_utf8_valid_utf8(s);
    encode_utf8_decode_utf8(s);
}

/// An input from which a string was read is that string as written, then the rest.
pub proof fn lemma_parse_string_inverse(b: Seq<u8>)
    ensures
        parse_string(b) matches Some((s, rest)) ==> string_fits(s) && b == string_bytes(s) + rest,
{
    if parse_string(b) is Some {
        let n = le_value(b.take(4)) as int;
        let body = b.subrange(4, 4 + n);
        lemma_radix_values();
        lemma_le_value_bound(b.take(4));
        lemma_le_bytes_of_value(b.take(4));
        decode_utf8_encode_utf8(body);
        assert(b =~= b.take(4) + body + b.skip(4 + n));
    }
}

/// Reading a key from a key followed by more gives the key and what followed it.
pub proof fn lemma_parse_key_bytes(key: Seq<u8>, tail: Seq<u8>)
    requires
        key.len() == KEY_LEN,
    ensures
        parse_key(key + tail) == Some((key, tail)),
{
    assert((key + tail).take(KEY_LEN as int) =~= key);
    assert((key + tail).skip(KEY_LEN as int) =~= tail);
}

/// An input from which a key was read is that key, then the rest.
pub proof fn lemma_parse_key_inverse(b: Seq<u8>)
    ensures
        parse_key(b) matches Some((key, rest)) ==> key.len() == KEY_LEN && b == key + rest,
{
    if parse_key(b) is Some {
        assert(b =~= b.take(KEY_LEN as int) + b.skip(KEY_LEN as int));
    }
}

/// Trusted. Calls `borsh::BorshDeserialize::deserialize` for `u8` on a
/// slice. Claims that it takes the first byte and leaves the others, and
/// fails only on an empty input.
#[verifier::external_body]
pub(crate) fn read_u8<'a>(input: &'a [u8]) -> (r: Option<(u8, &'a [u8])>)
    ensures
        match r {
            Some((v, rest)) => parse_u8(input@) == Some((v, rest@)),
            None => parse_u8(input@) is None,
        },
{
    let mut reader = input;
    match u8::deserialize(&mut reader) {
        Ok(v) => Some((v, reader)),
        Err(_) => None,
    }
}

/// Trusted. Calls `borsh::BorshDeserialize::deserialize` for `u64` on a
/// slice. Claims that it takes eight bytes as a little-endian number and
/// leaves the others, and fails only where fewer than eight are there.
#[verifier::external_body]
pub(crate) fn read_u64<'a>(input: &'a [u8]) -> (r: Option<(u64, &'a [u8])>)
    ensures
        match r {
            Some((v, rest)) => parse_u64(input@) == Some((v, rest@)),
            None => parse_u64(input@) is None,
        },
{
    let mut reader = input;
    match u64::deserialize(&mut reader) {
        Ok(v) => Some((v, reader)),
        Err(_) => None,
    }
}

/// Trusted. Calls `borsh::BorshDeserialize::deserialize` for `i64` on a
/// slice. Claims that it takes eight bytes as a little-endian two's
/// complement number and leaves the others, and fails only where fewer than
/// eight are there.
#[verifier::external_body]
pub(crate) fn read_i64<'a>(input: &'a [u8]) -> (r: Option<(i64, &'a [u8])>)
    ensures
        match r {
            Some((v, rest)) => parse_i64(input@) == Some((v, rest@)),
            None => parse_i64(input@) is None,
        },
{
    let mut reader = input;
    match i64::deserialize(&mut reader) {
        Ok(v) => Some((v, reader)),
        Err(_) => None,
    }
}

/// Trusted. Calls `borsh::BorshDeserialize::deserialize` for `bool` on a
/// slice. Claims that it takes one byte, accepts `0` as false and `1` as
/// true, and fails on any other byte and on an empty input.
#[verifier::external_body]
pub(crate) fn read_bool<'a>(input: &'a [u8]) -> (r: Option<(bool, &'a [u8])>)
    ensures
        match r {
            Some((v, rest)) => parse_bool(input@) == Some((v, rest@)),
            None => parse_bool(input@) is None,
        },
{
    let mut reader = input;
    match bool::deserialize(&mut reader) {
        Ok(v) => Some((v, reader)),
        Err(_) => None,
    }
}

/// Trusted. Calls `borsh::BorshDeserialize::deserialize` for `String` on a
/// slice. Claims that it takes a four-byte little-endian length and that
/// many bytes, gives the string whose UTF-8 form those bytes are, and fails
/// where the input is shorter than announced or the bytes are not
/// well-formed UTF-8.
#[verifier::external_body]
pub(crate) fn read_string<'a>(input: &'a [u8]) -> (r: Option<(String, &'a [u8])>)
    ensures
        match r {
            Some((s, rest)) => parse_string(input@) == Some((s@, rest@)),
            None => parse_string(input@) is None,
        },
{
    let mut reader = input;
    match String::deserialize(&mut reader) {
        Ok(v) => Some((v, reader)),
        Err(_) => None,
    }
}

/// Trusted. Calls `borsh::BorshDeserialize::deserialize` for `[u8; 32]` on
/// a slice. Claims that it takes the first 32 bytes unchanged and leaves the
/// others, and fails only where fewer than 32 are there.
#[verifier::external_body]
pub(crate) fn read_key<'a>(input: &'a [u8]) -> (r: Option<([u8; 32], &'a [u8])>)
    ensures
        match r {
            Some((key, rest)) => parse_key(input@) == Some((key@, rest@)),
            None => parse_key(input@) is None,
        },
{
    let mut reader = input;
    match <[u8; 32]>::deserialize(&mut reader) {
        Ok(v) => Some((v, reader)),
        Err(_) => None,
    }
}

/// Trusted. Calls `borsh::BorshSerialize::serialize` for `u8` with a vector
/// as the writer. Claims that it appends the byte.
#[verifier::external_body]
pub(crate) fn write_u8(out: &mut Vec<u8>, v: u8)
    ensures
        final(out)@ == old(out)@ + u8_bytes(v),
{
    let _ = v.serialize(out);
}

/// Trusted. Calls `borsh::BorshSerialize::serialize` for `u64` with a vector
/// as the writer. Claims that it appends the eight little-endian bytes of the
/// number.
#[verifier::external_body]
pub(crate) fn write_u64(out: &mut Vec<u8>, v: u64)
    ensures
        final(out)@ == old(out)@ + u64_bytes(v),
{
    let _ = v.serialize(out);
}

/// Trusted. Calls `borsh::BorshSerialize::serialize` for `i64` with a vector
/// as the writer. Claims that it appends the eight little-endian bytes of the
/// number's two's complement pattern.
#[verifier::external_body]
pub(crate) fn write_i64(out: &mut Vec<u8>, v: i64)
    ensures
        final(out)@ == old(out)@ + i64_bytes(v),
{
    let _ = v.serialize(out);
}

/// Trusted. Calls `borsh::BorshSerialize::serialize` for `bool` with a
/// vector as the writer. Claims that it appends one byte, `1` for true and
/// `0` for false.
#[verifier::external_body]
pub(crate) fn write_bool(out: &mut Vec<u8>, v: bool)
    ensures
        final(out)@ == old(out)@ + bool_bytes(v),
{
    let _ = v.serialize(out);
}

/// Trusted. Calls `borsh::BorshSerialize::serialize` for `String` with a
/// vector as the writer. Claims that it appends the four-byte little-endian
/// length of the string's UTF-8 form and then that form, and that it
/// refuses, appending nothing, exactly where the length does not fit in four
/// bytes.
#[verifier::external_body]
pub(crate) fn write_string(out: &mut Vec<u8>, s: &String) -> (ok: bool)
    ensures
        ok == string_fits(s@),
        ok ==> final(out)@ == old(out)@ + string_bytes(s@),
        !ok ==> final(out)@ == old(out)@,
{
    s.serialize(out).is_ok()
}

/// Trusted. Calls `borsh::BorshSerialize::serialize` for `[u8; 32]` with a
/// vector as the writer. Claims that it appends the 32 bytes unchanged.
#[verifier::external_body]
pub(crate) fn write_key(out: &mut Vec<u8>, key: &[u8; 32])
    ensures
        final(out)@ == old(out)@ + key@,
{
    let _ = key.serialize(out);
}

} // verus!
