use chatbot::api::{decide_upgrade, Upgrade, ROOM_PARAM, UPGRADE_HEADER, UPGRADE_REQUIRED};

fn forwarded(u: Upgrade) -> Option<String> {
    match u {
        Upgrade::Forward { room } => Some(room),
        Upgrade::Refused { status } => {
            assert_eq!(status, 426);
            None
        }
    }
}

#[test]
fn websocket_request_with_room_is_forwarded() {
    let u = decide_upgrade(Some(b"websocket".as_slice()), Some("room-1".to_string()));
    assert_eq!(forwarded(u), Some("room-1".to_string()));
}

#[test]
fn other_upgrade_values_are_refused() {
    assert_eq!(UPGRADE_REQUIRED, 426);
    assert_eq!(UPGRADE_HEADER, "Upgrade");
    assert_eq!(ROOM_PARAM, "id");
    assert_eq!(forwarded(decide_upgrade(Some(b"WebSocket".as_slice()), Some("r".to_string()))), None);
    assert_eq!(forwarded(decide_upgrade(Some(b"websocket ".as_slice()), Some("r".to_string()))), None);
    assert_eq!(forwarded(decide_upgrade(Some(b"h2c".as_slice()), Some("r".to_string()))), None);
    assert_eq!(forwarded(decide_upgrade(Some(b"".as_slice()), Some("r".to_string()))), None);
}

#[test]
fn missing_header_or_room_is_refused() {
    assert_eq!(forwarded(decide_upgrade(None, Some("r".to_string()))), None);
    assert_eq!(forwarded(decide_upgrade(Some(b"websocket".as_slice()), None)), None);
    assert_eq!(forwarded(decide_upgrade(None, None)), None);
}

#[test]
fn empty_room_name_is_still_forwarded() {
    assert_eq!(forwarded(decide_upgrade(Some(b"websocket".as_slice()), Some(String::new()))), Some(String::new()));
}
