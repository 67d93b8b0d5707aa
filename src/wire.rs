//! Protobuf wire primitives: base-128 varints and field keys, as read and
//! written by `prost::encoding`.
use vstd::prelude::*;

verus! {

/// The bytes of `v` in base-128, least significant group first, with the
/// high bit set on every byte but the last.
pub open spec fn varint_bytes(v: nat) -> Seq<u8>
    decreases v,
{
    if v < 128 {
        seq![v as u8]
    } else {
        seq![(v % 128 + 128) as u8] + varint_bytes(v / 128)
    }
}

/// Relies on `prost::encoding::encode_varint`: appends the base-128 bytes of `value`.
#[verifier::external_body]
pub(crate) fn put_varint(value: u64, buf: &mut Vec<u8>)
    ensures
        final(buf)@ == old(buf)@ + varint_bytes(value as nat),
{
    prost::encoding::encode_varint(value, buf)
}

/// Reads a varint from the front of `s`, whose bytes before `s` numbered `k`:
/// the value and the count of bytes taken, or `None` where `s` ends inside the
/// varint, where it runs past ten bytes, or where the tenth byte would carry
/// the value past 64 bits.
pub open spec fn varint_from(s: Seq<u8>, k: nat) -> Option<(nat, nat)>
    decreases 10 - k,
{
    if k >= 10 || s.len() == 0 {
        None
    } else if s[0] < 128 {
        if k == 9 && s[0] >= 2 {
            None
        } else {
            Some((s[0] as nat, 1))
        }
    } else {
        match varint_from(s.drop_first(), k + 1) {
            Some((v, n)) => Some((((s[0] - 128) + 128 * v) as nat, n + 1)),
            None => None,
        }
    }
}

/// The varint at the front of `s`.
pub open spec fn varint_at(s: Seq<u8>) -> Option<(nat, nat)> {
    varint_from(s, 0)
}

/// A field key at the front of `s`: its tag, its wire type and the count of
/// bytes taken. The key must fit in 32 bits, name a wire type up to 5 and a
/// tag of at least 1.
pub open spec fn key_at(s: Seq<u8>) -> Option<(u32, u8, nat)> {
    match varint_at(s) {
        Some((key, n)) => if key <= u32::MAX && key % 8 <= 5 && key / 8 >= 1 {
            Some(((key / 8) as u32, (key % 8) as u8, n))
        } else {
            None
        },
        None => None,
    }
}

/// The encoded key of field `tag` with wire type `wire_type`.
pub open spec fn key_bytes(tag: u32, wire_type: u8) -> Seq<u8> {
    varint_bytes(tag as nat * 8 + wire_type as nat)
}

/// What a group takes, from just after its start key, up to and including
/// its matching end key, as `prost::encoding::skip_field` counts it.
pub uninterp spec fn group_len(tag: u32, s: Seq<u8>) -> Option<nat>;

/// The count of bytes that an unknown field of wire type `wire_type` takes at
/// the front of `s` (which starts just after the key).
pub open spec fn field_len(wire_type: u8, tag: u32, s: Seq<u8>) -> Option<nat> {
    if wire_type == 0 {
        match varint_at(s) {
            Some((_, n)) => Some(n),
            None => None,
        }
    } else if wire_type == 1 {
        if s.len() >= 8 { Some(8nat) } else { None }
    } else if wire_type == 2 {
        match varint_at(s) {
            Some((len, n)) => if n + len <= s.len() { Some(n + len) } else { None },
            None => None,
        }
    } else if wire_type == 3 {
        group_len(tag, s)
    } else if wire_type == 5 {
        if s.len() >= 4 { Some(4nat) } else { None }
    } else {
        None
    }
}

/// A varint takes at least one byte, and no more than there are.
pub proof fn lemma_varint_len(s: Seq<u8>, k: nat)
    ensures
        varint_from(s, k) matches Some((_, n)) ==> 1 <= n <= s.len(),
    decreases 10 - k,
{
    if k < 10 && s.len() > 0 && s[0] >= 128 {
        lemma_varint_len(s.drop_first(), k + 1);
    }
}

/// The bytes of `v` read back as `v`, wherever they stand inside the first
/// nine bytes of a varint, whatever follows them.
pub proof fn lemma_varint_round_trip(v: nat, k: nat, rest: Seq<u8>)
    requires
        k + varint_bytes(v).len() <= 9,
    ensures
        varint_from(varint_bytes(v) + rest, k) == Some((v, varint_bytes(v).len())),
    decreases v,
{
    let s = varint_bytes(v) + rest;
    if v < 128 {
        assert(s[0] == v as u8);
    } else {
        let tail = varint_bytes(v / 128);
        lemma_varint_round_trip(v / 128, k + 1, rest);
        assert(s.drop_first() =~= tail + rest);
        assert(s[0] == (v % 128 + 128) as u8);
    }
}

/// A value below `128` to the power `n` takes at most `n` bytes.
pub proof fn lemma_varint_bytes_len(v: nat, n: nat)
    requires
        n >= 1,
        v < pow128(n),
    ensures
        varint_bytes(v).len() <= n,
    decreases v,
{
    if v >= 128 {
        assert(n >= 2) by {
            if n < 2 {
                assert(pow128(1) == 128 * pow128(0));
            }
        }
        assert(v / 128 < pow128((n - 1) as nat)) by {
            assert(pow128(n) == 128 * pow128((n - 1) as nat));
        }
        lemma_varint_bytes_len(v / 128, (n - 1) as nat);
    }
}

/// `128` to the power `n`.
pub open spec fn pow128(n: nat) -> nat
    decreases n,
{
    if n == 0 {
        1
    } else {
        128 * pow128((n - 1) as nat)
    }
}

/// A 32-bit value takes at most five bytes.
pub proof fn lemma_varint_u32_len(v: u32)
    ensures
        varint_bytes(v as nat).len() <= 5,
{
    reveal_with_fuel(pow128, 6);
    assert(pow128(5) == 34359738368);
    lemma_varint_bytes_len(v as nat, 5);
}

#[verifier::external_type_specification]
#[verifier::external_body]
pub struct ExDecodeError(prost::DecodeError);

/// Relies on `prost::encoding::decode_varint`: reads the varint at the front
/// of `buf`; gives its value and how many bytes of `buf` are left after it.
#[verifier::external_body]
pub(crate) fn take_varint(buf: &[u8]) -> (r: Result<(u64, usize), prost::DecodeError>)
    ensures
        match r {
            Ok((v, rest)) => rest <= buf@.len() && varint_at(buf@) == Some(
                (v as nat, (buf@.len() - rest) as nat),
            ),
            Err(_) => varint_at(buf@) is None,
        },
{
    let mut b = buf;
    let v = prost::encoding::decode_varint(&mut b)?;
    Ok((v, b.len()))
}

/// Relies on `prost::encoding::decode_key`: reads the field key at the front
/// of `buf`; gives its tag, its wire type as a number and how many bytes of
/// `buf` are left after it.
#[verifier::external_body]
pub(crate) fn take_key(buf: &[u8]) -> (r: Result<(u32, u8, usize), prost::DecodeError>)
    ensures
        match r {
            Ok((tag, wire_type, rest)) => rest <= buf@.len() && key_at(buf@) == Some(
                (tag, wire_type, (buf@.len() - rest) as nat),
            ),
            Err(_) => key_at(buf@) is None,
        },
{
    let mut b = buf;
    let (tag, wire_type) = prost::encoding::decode_key(&mut b)?;
    Ok((tag, wire_type as u8, b.len()))
}

/// Relies on `prost::encoding::skip_field`: passes over an unknown field of
/// wire type `wire_type` at the front of `buf`; gives how many bytes of `buf`
/// are left after it.
#[verifier::external_body]
pub(crate) fn skip_unknown(wire_type: u8, tag: u32, buf: &[u8]) -> (r: Result<usize, prost::DecodeError>)
    requires
        wire_type <= 5,
    ensures
        match r {
            Ok(rest) => rest <= buf@.len() && field_len(wire_type, tag, buf@) == Some(
                (buf@.len() - rest) as nat,
            ),
            Err(_) => field_len(wire_type, tag, buf@) is None,
        },
        wire_type == 3 ==> match r {
            Ok(rest) => group_len(tag, buf@) == Some((buf@.len() - rest) as nat),
            Err(_) => group_len(tag, buf@) is None,
        },
{
    let mut b = buf;
    let wire_type = prost::encoding::WireType::try_from(wire_type as u64)?;
    prost::encoding::skip_field(wire_type, tag, &mut b, prost::encoding::DecodeContext::default())?;
    Ok(b.len())
}

} // verus!
