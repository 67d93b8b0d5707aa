use scene_actors::actor::{Message, MAILBOX_CAPACITY};
use scene_actors::config::{database_url, host_address, REQUEST_TIMEOUT_MILLIS};
use scene_actors::errors::{create_error_response, ErrorCode};
use scene_actors::protos::{
    frame, DecodeFailure, ErrorResponse, SelectSceneRequest, SelectSceneResponse,
};
use scene_actors::router::{route, step, RouterAction, RouterEvent, RouterStage};
use scene_actors::scene::{Scene, SceneRegistry};

fn decode(bytes: &[u8]) -> Result<u32, DecodeFailure> {
    SelectSceneRequest::decode(bytes).map(|r| r.scene_id)
}

/// Runs the router over what a client sent in time, as the router actor does,
/// and gives the last action taken.
fn serve(incoming: &[u8]) -> RouterAction {
    let registry = SceneRegistry::new();
    let mut at = 0usize;
    let mut stage = RouterStage::Connected;
    let mut event = RouterEvent::PeerKnown;
    loop {
        let (next, action) = step(&registry, stage, event);
        stage = next;
        event = match action {
            RouterAction::ReadLength => {
                if at < incoming.len() {
                    at += 1;
                    RouterEvent::LengthRead { len: incoming[at - 1] }
                } else {
                    RouterEvent::LengthFailed
                }
            }
            RouterAction::ReadBody { len } => {
                let len = len as usize;
                if at + len <= incoming.len() {
                    let body = incoming[at..at + len].to_vec();
                    at += len;
                    RouterEvent::BodyRead { body }
                } else {
                    RouterEvent::BodyFailed
                }
            }
            other => return other,
        };
    }
}

#[test]
fn request_encodes_as_varint_field() {
    assert_eq!(SelectSceneRequest { scene_id: 1 }.encode(), vec![0x08, 0x01]);
    assert_eq!(SelectSceneRequest { scene_id: 300 }.encode(), vec![0x08, 0xac, 0x02]);
    assert_eq!(SelectSceneRequest { scene_id: 0 }.encode(), Vec::<u8>::new());
    assert_eq!(
        SelectSceneRequest { scene_id: u32::MAX }.encode(),
        vec![0x08, 0xff, 0xff, 0xff, 0xff, 0x0f]
    );
}

#[test]
fn response_and_error_encodings() {
    assert_eq!(SelectSceneResponse { success: true }.encode(), vec![0x08, 0x01]);
    assert_eq!(SelectSceneResponse { success: false }.encode(), Vec::<u8>::new());
    assert_eq!(ErrorResponse { error_code: 3 }.encode(), vec![0x08, 0x03]);
    assert_eq!(ErrorResponse { error_code: 0 }.encode(), Vec::<u8>::new());
}

#[test]
fn request_decodes_back() {
    for id in [0u32, 1, 2, 127, 128, 300, 65535, 1 << 28, u32::MAX] {
        let bytes = SelectSceneRequest { scene_id: id }.encode();
        assert_eq!(decode(&bytes), Ok(id));
    }
}

#[test]
fn decode_empty_body_gives_zero() {
    assert_eq!(decode(&[]), Ok(0));
}

#[test]
fn decode_last_field_wins() {
    assert_eq!(decode(&[0x08, 0x01, 0x08, 0x02]), Ok(2));
}

#[test]
fn decode_skips_unknown_fields() {
    // field 2, varint
    assert_eq!(decode(&[0x10, 0x05, 0x08, 0x07]), Ok(7));
    // field 3, length-delimited
    assert_eq!(decode(&[0x1a, 0x02, 0xff, 0xff, 0x08, 0x03]), Ok(3));
    // field 2, fixed32
    assert_eq!(decode(&[0x15, 1, 2, 3, 4, 0x08, 0x01]), Ok(1));
    // field 2, fixed64
    assert_eq!(decode(&[0x11, 1, 2, 3, 4, 5, 6, 7, 8, 0x08, 0x09]), Ok(9));
    // field 3, an empty group
    assert_eq!(decode(&[0x1b, 0x1c, 0x08, 0x01]), Ok(1));
}

#[test]
fn decode_truncates_wide_scene_id() {
    // 2^32 + 5 keeps its low 32 bits
    assert_eq!(decode(&[0x08, 0x85, 0x80, 0x80, 0x80, 0x10]), Ok(5));
}

#[test]
fn decode_refuses_malformed_bodies() {
    // tag 0
    assert_eq!(decode(&[0x01]), Err(DecodeFailure));
    // key without its value
    assert_eq!(decode(&[0x08]), Err(DecodeFailure));
    // varint cut short
    assert_eq!(decode(&[0x08, 0x80]), Err(DecodeFailure));
    // scene_id with the length-delimited wire type
    assert_eq!(decode(&[0x0a, 0x00]), Err(DecodeFailure));
    // length-delimited field longer than the body
    assert_eq!(decode(&[0x1a, 0x05, 0x01]), Err(DecodeFailure));
    // end of a group that was never started
    assert_eq!(decode(&[0x1c]), Err(DecodeFailure));
    // wire type 6
    assert_eq!(decode(&[0x0e]), Err(DecodeFailure));
    // fixed32 field cut short
    assert_eq!(decode(&[0x15, 1, 2]), Err(DecodeFailure));
    // varint of eleven bytes
    assert_eq!(
        decode(&[0x10, 0x80, 0x80, 0x80, 0x80, 0x80, 0x80, 0x80, 0x80, 0x80, 0x80, 0x01]),
        Err(DecodeFailure)
    );
}

#[test]
fn frame_puts_length_in_front() {
    assert_eq!(frame(&vec![]), vec![0]);
    assert_eq!(frame(&vec![0x08, 0x01]), vec![0x02, 0x08, 0x01]);
    let body = vec![7u8; 255];
    let framed = frame(&body);
    assert_eq!(framed.len(), 256);
    assert_eq!(framed[0], 255);
    assert_eq!(&framed[1..], &body[..]);
}

#[test]
fn error_codes_and_frames() {
    assert_eq!(ErrorCode::SceneNotExist.code(), 1);
    assert_eq!(ErrorCode::NetworkError.code(), 2);
    assert_eq!(ErrorCode::DecodeProtoFailed.code(), 3);
    assert_eq!(ErrorCode::ChannelClosed.code(), 4);
    assert_eq!(create_error_response(ErrorCode::SceneNotExist), vec![0x02, 0x08, 0x01]);
    assert_eq!(create_error_response(ErrorCode::NetworkError), vec![0x02, 0x08, 0x02]);
    assert_eq!(create_error_response(ErrorCode::DecodeProtoFailed), vec![0x02, 0x08, 0x03]);
    assert_eq!(create_error_response(ErrorCode::ChannelClosed), vec![0x02, 0x08, 0x04]);
}

#[test]
fn scene_a_replies_with_success() {
    assert_eq!(Scene::SceneA.response_frame(), vec![0x02, 0x08, 0x01]);
}

#[test]
fn registry_knows_scene_one_only() {
    let registry = SceneRegistry::new();
    assert_eq!(registry.get(1), Some(Scene::SceneA));
    assert_eq!(registry.get(0), None);
    assert_eq!(registry.get(2), None);
    assert_eq!(registry.get(u32::MAX), None);
}

#[test]
fn route_decodes_and_looks_up() {
    let registry = SceneRegistry::new();
    assert_eq!(route(&registry, &[0x08, 0x01]), Ok(Scene::SceneA));
    assert_eq!(route(&registry, &[0x08, 0x02]), Err(ErrorCode::SceneNotExist));
    assert_eq!(route(&registry, &[]), Err(ErrorCode::SceneNotExist));
    assert_eq!(route(&registry, &[0x01]), Err(ErrorCode::DecodeProtoFailed));
}

#[test]
fn client_selecting_scene_one_is_dispatched() {
    assert_eq!(serve(&[0x02, 0x08, 0x01]), RouterAction::Dispatch { scene: Scene::SceneA });
    let reply = Scene::SceneA.response_frame();
    assert_eq!(reply[0] as usize, reply.len() - 1);
    assert_eq!(&reply[1..], &SelectSceneResponse { success: true }.encode()[..]);
}

#[test]
fn one_byte_body_is_not_a_request() {
    // the single byte 0x01 is a key with tag 0, which protobuf refuses
    assert_eq!(
        serve(&[0x01, 0x01]),
        RouterAction::Respond { error: ErrorCode::DecodeProtoFailed }
    );
}

#[test]
fn client_selecting_unknown_scene_is_refused() {
    assert_eq!(
        serve(&[0x02, 0x08, 0x02]),
        RouterAction::Respond { error: ErrorCode::SceneNotExist }
    );
    assert_eq!(serve(&[0x00]), RouterAction::Respond { error: ErrorCode::SceneNotExist });
}

#[test]
fn missing_length_byte_is_a_decode_failure() {
    assert_eq!(serve(&[]), RouterAction::Respond { error: ErrorCode::DecodeProtoFailed });
}

#[test]
fn short_body_is_a_network_error() {
    assert_eq!(serve(&[0x02, 0x08]), RouterAction::Respond { error: ErrorCode::NetworkError });
    assert_eq!(serve(&[0x05]), RouterAction::Respond { error: ErrorCode::NetworkError });
}

#[test]
fn body_of_wrong_size_is_a_network_error() {
    let registry = SceneRegistry::new();
    let (stage, action) = step(
        &registry,
        RouterStage::AwaitingBody { len: 3 },
        RouterEvent::BodyRead { body: vec![0x08, 0x01] },
    );
    assert_eq!(stage, RouterStage::Finished);
    assert_eq!(action, RouterAction::Respond { error: ErrorCode::NetworkError });
}

#[test]
fn malformed_frame_does_not_touch_other_connections() {
    let registry = SceneRegistry::new();
    let (good, a) = step(&registry, RouterStage::Connected, RouterEvent::PeerKnown);
    assert_eq!(a, RouterAction::ReadLength);
    let (bad, _) = step(&registry, RouterStage::AwaitingLength, RouterEvent::LengthRead { len: 1 });
    let (_, refused) = step(&registry, bad, RouterEvent::BodyRead { body: vec![0x01] });
    assert_eq!(refused, RouterAction::Respond { error: ErrorCode::DecodeProtoFailed });
    let (good, _) = step(&registry, good, RouterEvent::LengthRead { len: 2 });
    let (_, served) = step(&registry, good, RouterEvent::BodyRead { body: vec![0x08, 0x01] });
    assert_eq!(served, RouterAction::Dispatch { scene: Scene::SceneA });
}

#[test]
fn peer_and_delivery_outcomes() {
    let registry = SceneRegistry::new();
    assert_eq!(
        step(&registry, RouterStage::Connected, RouterEvent::PeerUnknown),
        (RouterStage::Finished, RouterAction::Respond { error: ErrorCode::NetworkError })
    );
    let dispatching = RouterStage::Dispatching { scene: Scene::SceneA };
    assert_eq!(
        step(&registry, dispatching, RouterEvent::DeliveryFailed),
        (RouterStage::Finished, RouterAction::Respond { error: ErrorCode::ChannelClosed })
    );
    assert_eq!(
        step(&registry, dispatching, RouterEvent::Delivered),
        (RouterStage::Finished, RouterAction::Close)
    );
    assert_eq!(
        step(&registry, RouterStage::Finished, RouterEvent::PeerKnown),
        (RouterStage::Finished, RouterAction::Close)
    );
    assert_eq!(
        step(&registry, RouterStage::AwaitingLength, RouterEvent::Delivered),
        (RouterStage::Finished, RouterAction::Close)
    );
}

#[test]
fn configuration_defaults() {
    assert_eq!(host_address(None), "127.0.0.1:6379");
    assert_eq!(host_address(Some("0.0.0.0:7000".to_string())), "0.0.0.0:7000");
    assert_eq!(database_url(None), "sqlite:db.sqlite3");
    assert_eq!(database_url(Some("sqlite::memory:".to_string())), "sqlite::memory:");
    assert!(REQUEST_TIMEOUT_MILLIS > 0);
}

#[test]
fn message_wraps_payload() {
    let m = Message::new(vec![1u8, 2, 3]);
    assert_eq!(m.data, vec![1, 2, 3]);
    assert_eq!(MAILBOX_CAPACITY, 8);
}
