//! The messages of the scene protocol and their protobuf encoding: a select
//! request `{ scene_id: uint32 = 1 }`, its response `{ success: bool = 1 }` and
//! the error response `{ error_code: uint32 = 1 }`.
use vstd::prelude::*;
use vstd::slice::slice_subrange;
use crate::wire::{
    field_len, key_at, key_bytes, lemma_varint_len, put_varint, skip_unknown, take_key,
    take_varint, varint_at, varint_bytes, lemma_varint_round_trip, lemma_varint_u32_len,
};

verus! {

/// Asks for the scene with the given identifier.
#[derive(Clone, Copy, Debug, PartialEq, Eq, Structural)]
pub struct SelectSceneRequest {
    pub scene_id: u32,
}

/// Answers a request for a scene.
#[derive(Clone, Copy, Debug, PartialEq, Eq, Structural)]
pub struct SelectSceneResponse {
    pub success: bool,
}

/// Tells the client why its request was turned down.
#[derive(Clone, Copy, Debug, PartialEq, Eq, Structural)]
pub struct ErrorResponse {
    pub error_code: u32,
}

/// A body that does not decode as the message asked for.
#[derive(Clone, Copy, Debug, PartialEq, Eq, Structural)]
pub struct DecodeFailure;

/// The number that field `tag` of wire type `wire_type` is keyed by.
fn field_key(tag: u32, wire_type: u8) -> (r: u64)
    requires
        wire_type < 8,
    ensures
        r as nat == tag as nat * 8 + wire_type as nat,
{
    tag as u64 * 8 + wire_type as u64
}

/// A proto3 varint field numbered 1 holding `v`: absent where `v` is zero.
pub open spec fn varint_field_one(v: nat) -> Seq<u8> {
    if v == 0 {
        Seq::empty()
    } else {
        key_bytes(1, 0) + varint_bytes(v)
    }
}

/// The encoding of a select request.
pub open spec fn request_bytes(m: SelectSceneRequest) -> Seq<u8> {
    varint_field_one(m.scene_id as nat)
}

/// The encoding of a select response.
pub open spec fn response_bytes(m: SelectSceneResponse) -> Seq<u8> {
    varint_field_one(if m.success { 1 } else { 0 })
}

/// The encoding of an error response.
pub open spec fn error_bytes(m: ErrorResponse) -> Seq<u8> {
    varint_field_one(m.error_code as nat)
}

/// Appends field 1 holding `v`, unless `v` is zero.
fn put_varint_field_one(v: u64, buf: &mut Vec<u8>)
    ensures
        final(buf)@ == old(buf)@ + varint_field_one(v as nat),
{
    if v != 0 {
        let key = field_key(1, 0);
        put_varint(key, buf);
        put_varint(v, buf);
        assert(final(buf)@ =~= old(buf)@ + varint_field_one(v as nat));
    } else {
        assert(old(buf)@ + varint_field_one(v as nat) =~= old(buf)@);
    }
}

/// The rest of a request body `s`, read over a message whose `scene_id` so
/// far is `scene_id`: fields are read in turn, the last `scene_id` wins, a
/// `scene_id` of another wire type than varint is refused, and unknown fields
/// are passed over.
pub open spec fn request_from(s: Seq<u8>, scene_id: u32) -> Option<SelectSceneRequest>
    decreases s.len(),
{
    if s.len() == 0 {
        Some(SelectSceneRequest { scene_id })
    } else {
        match key_at(s) {
            None => None,
            Some((tag, wire_type, n)) => if 1 <= n <= s.len() {
                let rest = s.skip(n as int);
                if tag == 1 {
                    if wire_type != 0 {
                        None
                    } else {
                        match varint_at(rest) {
                            None => None,
                            Some((v, m)) => if m <= rest.len() {
                                request_from(rest.skip(m as int), (v % 0x1_0000_0000) as u32)
                            } else {
                                None
                            },
                        }
                    }
                } else {
                    match field_len(wire_type, tag, rest) {
                        None => None,
                        Some(m) => if m <= rest.len() {
                            request_from(rest.skip(m as int), scene_id)
                        } else {
                            None
                        },
                    }
                }
            } else {
                None
            },
        }
    }
}

/// The request that body `s` decodes to, if any; fields left out are zero.
pub open spec fn request_of(s: Seq<u8>) -> Option<SelectSceneRequest> {
    request_from(s, 0)
}

impl SelectSceneRequest {
    /// The protobuf encoding of this request.
    pub fn encode(&self) -> (r: Vec<u8>)
        ensures
            r@ == request_bytes(*self),
    {
        let mut buf: Vec<u8> = Vec::new();
        put_varint_field_one(self.scene_id as u64, &mut buf);
        assert(buf@ =~= request_bytes(*self));
        buf
    }

    /// Decodes a request body.
    pub fn decode(buf: &[u8]) -> (r: Result<SelectSceneRequest, DecodeFailure>)
        ensures
            match r {
                Ok(m) => request_of(buf@) == Some(m),
                Err(_) => request_of(buf@) is None,
            },
    {
        let mut scene_id: u32 = 0;
        let mut pos: usize = 0;
        assert(buf@.skip(0) =~= buf@);
        while pos < buf.len()
            invariant
                pos <= buf@.len(),
                request_from(buf@.skip(pos as int), scene_id) == request_of(buf@),
            decreases buf@.len() - pos,
        {
            let s = Ghost(buf@.skip(pos as int));
            let rest = slice_subrange(buf, pos, buf.len());
            assert(rest@ =~= s@);
            let (tag, wire_type, left) = match take_key(rest) {
                Ok(k) => k,
                Err(_) => {
                    return Err(DecodeFailure);
                },
            };
            proof {
                lemma_varint_len(s@, 0);
            }
            let at: usize = buf.len() - left;
            assert(s@.skip((at - pos) as int) =~= buf@.skip(at as int));
            let field = slice_subrange(buf, at, buf.len());
            assert(field@ =~= buf@.skip(at as int));
            if tag == 1 {
                if wire_type != 0 {
                    return Err(DecodeFailure);
                }
                let (v, left) = match take_varint(field) {
                    Ok(r) => r,
                    Err(_) => {
                        return Err(DecodeFailure);
                    },
                };
                let next: usize = buf.len() - left;
                assert(field@.skip((next - at) as int) =~= buf@.skip(next as int));
                scene_id = (v % 0x1_0000_0000) as u32;
                pos = next;
            } else {
                let left = match skip_unknown(wire_type, tag, field) {
                    Ok(r) => r,
                    Err(_) => {
                        return Err(DecodeFailure);
                    },
                };
                let next: usize = buf.len() - left;
                assert(field@.skip((next - at) as int) =~= buf@.skip(next as int));
                pos = next;
            }
        }
        assert(buf@.skip(pos as int).len() == 0);
        Ok(SelectSceneRequest { scene_id })
    }
}

impl SelectSceneResponse {
    /// The protobuf encoding of this response.
    pub fn encode(&self) -> (r: Vec<u8>)
        ensures
            r@ == response_bytes(*self),
    {
        let mut buf: Vec<u8> = Vec::new();
        let v: u64 = if self.success { 1 } else { 0 };
        put_varint_field_one(v, &mut buf);
        assert(buf@ =~= response_bytes(*self));
        buf
    }
}

impl ErrorResponse {
    /// The protobuf encoding of this error response.
    pub fn encode(&self) -> (r: Vec<u8>)
        ensures
            r@ == error_bytes(*self),
    {
        let mut buf: Vec<u8> = Vec::new();
        put_varint_field_one(self.error_code as u64, &mut buf);
        assert(buf@ =~= error_bytes(*self));
        buf
    }
}

/// A body with its one-byte length in front.
pub open spec fn frame_bytes(body: Seq<u8>) -> Seq<u8> {
    seq![body.len() as u8] + body
}

/// Puts the length of `body` in front of it, as one byte.
pub fn frame(body: &Vec<u8>) -> (r: Vec<u8>)
    requires
        body@.len() <= 255,
    ensures
        r@ == frame_bytes(body@),
{
    let mut r: Vec<u8> = Vec::new();
    r.push(body.len() as u8);
    let mut i: usize = 0;
    while i < body.len()
        invariant
            i <= body@.len(),
            body@.len() <= 255,
            r@ == seq![body@.len() as u8] + body@.take(i as int),
        decreases body@.len() - i,
    {
        r.push(body[i]);
        i = i + 1;
        assert(body@.take(i as int) =~= body@.take((i - 1) as int).push(body@[i - 1]));
        assert(r@ =~= seq![body@.len() as u8] + body@.take(i as int));
    }
    assert(body@.take(i as int) =~= body@);
    r
}

/// Every select request decodes back from its encoding.
pub proof fn lemma_request_round_trip(m: SelectSceneRequest)
    ensures
        request_of(request_bytes(m)) == Some(m),
{
    let id = m.scene_id;
    if id != 0 {
        let body = varint_bytes(id as nat);
        let s = request_bytes(m);
        assert(varint_bytes(8) =~= seq![8u8]);
        assert(s =~= varint_bytes(8) + body);
        lemma_varint_round_trip(8, 0, body);
        assert(key_at(s) == Some((1u32, 0u8, 1nat)));
        let rest = s.skip(1);
        assert(rest =~= body + Seq::<u8>::empty());
        lemma_varint_u32_len(id);
        lemma_varint_round_trip(id as nat, 0, Seq::<u8>::empty());
        assert(varint_at(rest) == Some((id as nat, body.len())));
        assert(rest.skip(body.len() as int).len() == 0);
        assert((id as nat % 0x1_0000_0000) as u32 == id);
        assert(request_from(rest.skip(body.len() as int), id) == Some(m));
        assert(request_from(s, 0) == Some(m));
    }
}

} // verus!
