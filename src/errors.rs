//! The errors that the server reports to a client, and the frames that carry them.
use vstd::prelude::*;
use crate::protos::{error_bytes, frame, frame_bytes, ErrorResponse};

verus! {

/// Why a connection was turned down.
#[derive(Clone, Copy, Debug, PartialEq, Eq, Structural)]
pub enum ErrorCode {
    /// The requested scene is not in the registry.
    SceneNotExist,
    /// Reading from or writing to the connection failed or timed out.
    NetworkError,
    /// The request frame could not be read or decoded.
    DecodeProtoFailed,
    /// The connection could not be handed to the scene's actor.
    ChannelClosed,
}

/// The number that stands for `e` on the wire.
pub open spec fn code_of(e: ErrorCode) -> u32 {
    match e {
        ErrorCode::SceneNotExist => 1,
        ErrorCode::NetworkError => 2,
        ErrorCode::DecodeProtoFailed => 3,
        ErrorCode::ChannelClosed => 4,
    }
}

/// The frame that reports `e`: the encoded error response, with its length in front.
pub open spec fn error_frame(e: ErrorCode) -> Seq<u8> {
    frame_bytes(error_bytes(ErrorResponse { error_code: code_of(e) }))
}

impl ErrorCode {
    /// The number that stands for this error on the wire.
    pub fn code(&self) -> (r: u32)
        ensures
            r == code_of(*self),
    {
        match self {
            ErrorCode::SceneNotExist => 1,
            ErrorCode::NetworkError => 2,
            ErrorCode::DecodeProtoFailed => 3,
            ErrorCode::ChannelClosed => 4,
        }
    }
}

/// The frame to write back to a client turned down with `error_code`.
pub fn create_error_response(error_code: ErrorCode) -> (r: Vec<u8>)
    ensures
        r@ == error_frame(error_code),
        r@ == seq![2u8, 8u8, code_of(error_code) as u8],
{
    let response = ErrorResponse { error_code: error_code.code() };
    let body = response.encode();
    assert(crate::wire::varint_bytes(8) =~= seq![8u8]);
    assert(crate::wire::varint_bytes(code_of(error_code) as nat) =~= seq![code_of(error_code) as u8]);
    assert(body@ =~= seq![8u8, code_of(error_code) as u8]);
    let r = frame(&body);
    assert(r@ =~= seq![2u8, 8u8, code_of(error_code) as u8]);
    r
}

} // verus!
