use discord::intents::Intents;
use discord::wire::{
    escape_json_bytes, gateway_connect_url, heartbeat_frame, identify_frame, resume_frame,
};

#[test]
fn heartbeat_frame_echoes_the_sequence() {
    assert_eq!(
        String::from_utf8(heartbeat_frame(None)).unwrap(),
        "{\"op\":1,\"d\":null}"
    );
    assert_eq!(
        String::from_utf8(heartbeat_frame(Some(42))).unwrap(),
        "{\"op\":1,\"d\":42}"
    );
    assert_eq!(
        String::from_utf8(heartbeat_frame(Some(0))).unwrap(),
        "{\"op\":1,\"d\":0}"
    );
}

#[test]
fn identify_frame_has_the_documented_shape() {
    let bytes = identify_frame("tok", Intents { value: 513 }, "linux", "lib", "lib");
    assert_eq!(
        String::from_utf8(bytes).unwrap(),
        "{\"op\":2,\"d\":{\"token\":\"tok\",\"intents\":513,\"properties\":{\"$os\":\"linux\",\"$browser\":\"lib\",\"$device\":\"lib\"}}}"
    );
}

#[test]
fn identify_frame_is_valid_json_even_with_hostile_token() {
    let token = "a\"b\\c\nd";
    let bytes = identify_frame(token, Intents::default(), "os", "br", "dev");
    let v: serde_json::Value = serde_json::from_slice(&bytes).unwrap();
    assert_eq!(v["op"].as_u64(), Some(2));
    assert_eq!(v["d"]["token"].as_str(), Some(token));
    assert_eq!(v["d"]["intents"].as_u64(), Some(Intents::default().value));
}

#[test]
fn escaping_rewrites_quotes_backslashes_and_controls() {
    assert_eq!(escape_json_bytes(b"plain"), b"plain");
    assert_eq!(escape_json_bytes(b"a\"b"), b"a\\\"b");
    assert_eq!(escape_json_bytes(b"a\\b"), b"a\\\\b");
    assert_eq!(escape_json_bytes(b"\n"), b"\\u000a");
    assert_eq!(escape_json_bytes(&[0x1F]), b"\\u001f");
}

#[test]
fn resume_frame_has_the_documented_shape() {
    let bytes = resume_frame("tok", "sess", 7);
    assert_eq!(
        String::from_utf8(bytes).unwrap(),
        "{\"op\":6,\"d\":{\"token\":\"tok\",\"session_id\":\"sess\",\"seq\":7}}"
    );
}

#[test]
fn connect_url_carries_version_and_encoding() {
    assert_eq!(
        gateway_connect_url("wss://gateway.example"),
        "wss://gateway.example/?v=10&encoding=json"
    );
}
