//! What the router actor does with one connection, as a machine from stage
//! and event to next stage and action. The actor performs each action on the
//! connection (a read with a timeout, a hand-off, a write) and feeds back what
//! came of it as the next event.
use vstd::prelude::*;
use crate::errors::ErrorCode;
use crate::protos::{
    frame_bytes, lemma_request_round_trip, request_bytes, request_of, response_bytes,
    DecodeFailure, SelectSceneRequest, SelectSceneResponse,
};
use crate::scene::{scene_reply, Scene, SceneRegistry};
use crate::wire::lemma_varint_u32_len;

verus! {

/// Where the router stands on its connection.
#[derive(Clone, Copy, Debug, PartialEq, Eq, Structural)]
pub enum RouterStage {
    /// The connection has just been handed over.
    Connected,
    /// Waiting for the length byte of the request frame.
    AwaitingLength,
    /// Waiting for the `len` bytes of the request body.
    AwaitingBody { len: u8 },
    /// Handing the connection to the actor of `scene`.
    Dispatching { scene: Scene },
    /// Nothing more is done on this connection.
    Finished,
}

/// What came of the last action.
#[derive(Debug)]
pub enum RouterEvent {
    /// The peer's address was read.
    PeerKnown,
    /// The peer's address could not be read.
    PeerUnknown,
    /// The length byte arrived.
    LengthRead { len: u8 },
    /// The length byte did not arrive in time, or the read failed.
    LengthFailed,
    /// The body arrived: these are the bytes read.
    BodyRead { body: Vec<u8> },
    /// The body did not arrive in full in time, or the read failed.
    BodyFailed,
    /// The scene's actor took the connection.
    Delivered,
    /// The scene's actor could not be reached.
    DeliveryFailed,
}

/// What the router asks to be done next.
#[derive(Clone, Copy, Debug, PartialEq, Eq, Structural)]
pub enum RouterAction {
    /// Read one byte, the body's length.
    ReadLength,
    /// Read exactly `len` bytes.
    ReadBody { len: u8 },
    /// Start an actor for `scene` and send it the connection.
    Dispatch { scene: Scene },
    /// Write the frame of `error` and drop the connection.
    Respond { error: ErrorCode },
    /// Drop the connection.
    Close,
}

/// Where request body `body` leads with registry `reg`: the scene it
/// selects, or why it is turned down.
pub open spec fn route_of(reg: Map<u32, Scene>, body: Seq<u8>) -> Result<Scene, ErrorCode> {
    match request_of(body) {
        None => Err(ErrorCode::DecodeProtoFailed),
        Some(req) => if reg.contains_key(req.scene_id) {
            Ok(reg[req.scene_id])
        } else {
            Err(ErrorCode::SceneNotExist)
        },
    }
}

/// The stage and action that follow `event` in `stage`.
pub open spec fn step_of(reg: Map<u32, Scene>, stage: RouterStage, event: RouterEvent) -> (
    RouterStage,
    RouterAction,
) {
    match stage {
        RouterStage::Connected => match event {
            RouterEvent::PeerKnown => (RouterStage::AwaitingLength, RouterAction::ReadLength),
            RouterEvent::PeerUnknown => (
                RouterStage::Finished,
                RouterAction::Respond { error: ErrorCode::NetworkError },
            ),
            _ => (RouterStage::Finished, RouterAction::Close),
        },
        RouterStage::AwaitingLength => match event {
            RouterEvent::LengthRead { len } => (
                RouterStage::AwaitingBody { len },
                RouterAction::ReadBody { len },
            ),
            RouterEvent::LengthFailed => (
                RouterStage::Finished,
                RouterAction::Respond { error: ErrorCode::DecodeProtoFailed },
            ),
            _ => (RouterStage::Finished, RouterAction::Close),
        },
        RouterStage::AwaitingBody { len } => match event {
            RouterEvent::BodyRead { body } => if body@.len() != len as nat {
                (RouterStage::Finished, RouterAction::Respond { error: ErrorCode::NetworkError })
            } else {
                match route_of(reg, body@) {
                    Ok(scene) => (RouterStage::Dispatching { scene }, RouterAction::Dispatch { scene }),
                    Err(error) => (RouterStage::Finished, RouterAction::Respond { error }),
                }
            },
            RouterEvent::BodyFailed => (
                RouterStage::Finished,
                RouterAction::Respond { error: ErrorCode::NetworkError },
            ),
            _ => (RouterStage::Finished, RouterAction::Close),
        },
        RouterStage::Dispatching { .. } => match event {
            RouterEvent::DeliveryFailed => (
                RouterStage::Finished,
                RouterAction::Respond { error: ErrorCode::ChannelClosed },
            ),
            _ => (RouterStage::Finished, RouterAction::Close),
        },
        RouterStage::Finished => (RouterStage::Finished, RouterAction::Close),
    }
}

/// Decodes request body `body` and looks its scene up in `registry`.
pub fn route(registry: &SceneRegistry, body: &[u8]) -> (r: Result<Scene, ErrorCode>)
    ensures
        r == route_of(registry@, body@),
{
    match SelectSceneRequest::decode(body) {
        Err(DecodeFailure) => Err(ErrorCode::DecodeProtoFailed),
        Ok(req) => match registry.get(req.scene_id) {
            Some(scene) => Ok(scene),
            None => Err(ErrorCode::SceneNotExist),
        },
    }
}

/// The stage and action that follow `event` in `stage`.
pub fn step(registry: &SceneRegistry, stage: RouterStage, event: RouterEvent) -> (r: (
    RouterStage,
    RouterAction,
))
    ensures
        r == step_of(registry@, stage, event),
{
    match stage {
        RouterStage::Connected => match event {
            RouterEvent::PeerKnown => (RouterStage::AwaitingLength, RouterAction::ReadLength),
            RouterEvent::PeerUnknown => (
                RouterStage::Finished,
                RouterAction::Respond { error: ErrorCode::NetworkError },
            ),
            _ => (RouterStage::Finished, RouterAction::Close),
        },
        RouterStage::AwaitingLength => match event {
            RouterEvent::LengthRead { len } => (
                RouterStage::AwaitingBody { len },
                RouterAction::ReadBody { len },
            ),
            RouterEvent::LengthFailed => (
                RouterStage::Finished,
                RouterAction::Respond { error: ErrorCode::DecodeProtoFailed },
            ),
            _ => (RouterStage::Finished, RouterAction::Close),
        },
        RouterStage::AwaitingBody { len } => match event {
            RouterEvent::BodyRead { body } => if body.len() != len as usize {
                (RouterStage::Finished, RouterAction::Respond { error: ErrorCode::NetworkError })
            } else {
                match route(registry, body.as_slice()) {
                    Ok(scene) => (RouterStage::Dispatching { scene }, RouterAction::Dispatch { scene }),
                    Err(error) => (RouterStage::Finished, RouterAction::Respond { error }),
                }
            },
            RouterEvent::BodyFailed => (
                RouterStage::Finished,
                RouterAction::Respond { error: ErrorCode::NetworkError },
            ),
            _ => (RouterStage::Finished, RouterAction::Close),
        },
        RouterStage::Dispatching { .. } => match event {
            RouterEvent::DeliveryFailed => (
                RouterStage::Finished,
                RouterAction::Respond { error: ErrorCode::ChannelClosed },
            ),
            _ => (RouterStage::Finished, RouterAction::Close),
        },
        RouterStage::Finished => (RouterStage::Finished, RouterAction::Close),
    }
}

/// The last action of the router on a connection whose peer is known and
/// whose client sent `incoming` within the time allowed: the first byte is
/// the body's length, the body follows.
pub open spec fn outcome_of(reg: Map<u32, Scene>, incoming: Seq<u8>) -> RouterAction {
    if incoming.len() == 0 {
        RouterAction::Respond { error: ErrorCode::DecodeProtoFailed }
    } else if incoming.len() < 1 + incoming[0] {
        RouterAction::Respond { error: ErrorCode::NetworkError }
    } else {
        match route_of(reg, incoming.subrange(1, 1 + incoming[0])) {
            Ok(scene) => RouterAction::Dispatch { scene },
            Err(error) => RouterAction::Respond { error },
        }
    }
}

/// Fed what comes of reading `incoming`, the router reaches `outcome_of`:
/// a missing length byte, a body cut short, or the body read whole (`body`).
pub proof fn lemma_router_reaches_outcome(reg: Map<u32, Scene>, incoming: Seq<u8>, body: Vec<u8>)
    requires
        incoming.len() >= 1 && incoming.len() >= 1 + incoming[0] ==> body@ == incoming.subrange(
            1,
            1 + incoming[0],
        ),
    ensures
        step_of(reg, RouterStage::Connected, RouterEvent::PeerKnown) == (
            RouterStage::AwaitingLength,
            RouterAction::ReadLength,
        ),
        incoming.len() == 0 ==> step_of(reg, RouterStage::AwaitingLength, RouterEvent::LengthFailed).1
            == outcome_of(reg, incoming),
        incoming.len() >= 1 ==> {
            let len = incoming[0];
            &&& step_of(reg, RouterStage::AwaitingLength, RouterEvent::LengthRead { len }) == (
                RouterStage::AwaitingBody { len },
                RouterAction::ReadBody { len },
            )
            &&& incoming.len() < 1 + len ==> step_of(
                reg,
                RouterStage::AwaitingBody { len },
                RouterEvent::BodyFailed,
            ).1 == outcome_of(reg, incoming)
            &&& incoming.len() >= 1 + len ==> step_of(
                reg,
                RouterStage::AwaitingBody { len },
                RouterEvent::BodyRead { body },
            ).1 == outcome_of(reg, incoming)
        },
{
}

/// A well-formed request frame for a registered scene is handed to that
/// scene's actor, whose first frame is a select response with `success` set.
pub proof fn lemma_registered_scene_is_served(reg: Map<u32, Scene>, scene_id: u32, rest: Seq<u8>)
    requires
        reg.contains_key(scene_id),
    ensures
        request_bytes((SelectSceneRequest { scene_id })).len() <= 255,
        outcome_of(reg, frame_bytes(request_bytes((SelectSceneRequest { scene_id }))) + rest)
            == (RouterAction::Dispatch { scene: reg[scene_id] }),
        scene_reply(reg[scene_id]) == frame_bytes(
            response_bytes((SelectSceneResponse { success: true })),
        ),
{
    let body = request_bytes(SelectSceneRequest { scene_id });
    lemma_request_round_trip(SelectSceneRequest { scene_id });
    lemma_varint_u32_len(scene_id);
    assert(crate::wire::varint_bytes(8) =~= seq![8u8]);
    let incoming = frame_bytes(body) + rest;
    assert(incoming.subrange(1, 1 + incoming[0]) =~= body);
}

/// A request frame for a scene that is not registered is answered with
/// `SceneNotExist`, and no scene's actor is started.
pub proof fn lemma_unknown_scene_is_refused(reg: Map<u32, Scene>, scene_id: u32, body: Seq<u8>, rest: Seq<u8>)
    requires
        !reg.contains_key(scene_id),
        request_of(body) == Some((SelectSceneRequest { scene_id })),
        body.len() <= 255,
    ensures
        outcome_of(reg, frame_bytes(body) + rest) == (RouterAction::Respond {
            error: ErrorCode::SceneNotExist,
        }),
{
    let incoming = frame_bytes(body) + rest;
    assert(incoming.subrange(1, 1 + incoming[0]) =~= body);
}

/// With no length byte the answer is `DecodeProtoFailed`; with fewer bytes
/// after it than it declares, `NetworkError`. A frame whose body is longer
/// than declared is read as declared, and what follows is left unread.
pub proof fn lemma_broken_frame_is_refused(reg: Map<u32, Scene>, incoming: Seq<u8>)
    ensures
        incoming.len() == 0 ==> outcome_of(reg, incoming) == (RouterAction::Respond {
            error: ErrorCode::DecodeProtoFailed,
        }),
        incoming.len() >= 1 && incoming.len() < 1 + incoming[0] ==> outcome_of(reg, incoming)
            == (RouterAction::Respond { error: ErrorCode::NetworkError }),
{
}

/// A body that does not decode as a select request is answered with
/// `DecodeProtoFailed`, and no scene's actor is started.
pub proof fn lemma_undecodable_body_is_refused(reg: Map<u32, Scene>, body: Seq<u8>, rest: Seq<u8>)
    requires
        request_of(body) is None,
        body.len() <= 255,
    ensures
        outcome_of(reg, frame_bytes(body) + rest) == (RouterAction::Respond {
            error: ErrorCode::DecodeProtoFailed,
        }),
{
    let incoming = frame_bytes(body) + rest;
    assert(incoming.subrange(1, 1 + incoming[0]) =~= body);
}

/// Once finished, the router only drops the connection, whatever happens.
pub proof fn lemma_finished_is_final(reg: Map<u32, Scene>, event: RouterEvent)
    ensures
        step_of(reg, RouterStage::Finished, event) == (RouterStage::Finished, RouterAction::Close),
{
}

} // verus!
