use ollie_scraper::models::{
    parse_channel, parse_envelope, parse_hello, IdentifyPayload, IdentifyProperties,
    ProtocolError,
};
use ollie_scraper::gateway::{encode_identify, encode_identify_payload};

#[test]
fn test_deserialize_hello_message() {
    let json = r#"{
        "op": 10,
        "d": {
            "heartbeat_interval": 41250
        }
    }"#;

    let msg = parse_envelope(json).ok().expect("Failed to parse Hello message");
    assert_eq!(msg.op, 10);
    assert!(msg.t.is_none());
    assert!(msg.d.is_some());

    let hello = parse_hello(&msg.d.unwrap()).ok().expect("Failed to parse Hello payload");
    assert_eq!(hello.heartbeat_interval, 41250);
}

#[test]
fn test_deserialize_channel_update_message() {
    let json = r#"{
        "op": 0,
        "t": "CHANNEL_UPDATE",
        "d": {
            "id": "123456789",
            "name": "general-chat"
        }
    }"#;

    let msg = parse_envelope(json).ok().expect("Failed to parse CHANNEL_UPDATE message");
    assert_eq!(msg.op, 0);
    assert_eq!(msg.t, Some("CHANNEL_UPDATE".to_string()));
    assert!(msg.d.is_some());

    let channel = parse_channel(&msg.d.unwrap()).ok().expect("Failed to parse Channel");
    assert_eq!(channel.id, "123456789");
    assert_eq!(channel.name, Some("general-chat".to_string()));
}

#[test]
fn test_serialize_identify_payload() {
    let identify = IdentifyPayload {
        token: "my_secret_token".to_string(),
        properties: IdentifyProperties {
            os: "linux".to_string(),
            browser: "rust".to_string(),
            device: "rust".to_string(),
        },
    };

    let json = encode_identify_payload(&identify);
    assert!(json.contains("my_secret_token"));
    assert!(json.contains("linux"));
    assert!(json.contains("rust"));

    // Verify it can be parsed back as valid JSON
    let value: serde_json::Value = serde_json::from_str(&json).expect("Serialized JSON is invalid");
    assert_eq!(value["token"], "my_secret_token");
    assert_eq!(value["properties"]["os"], "linux");
}

#[test]
fn test_null_name_reads_as_absent() {
    let json = r#"{"op":0,"t":"CHANNEL_UPDATE","d":{"id":"42","name":null}}"#;
    let msg = parse_envelope(json).ok().expect("envelope should parse");
    let channel = parse_channel(&msg.d.unwrap()).ok().expect("channel should parse");
    assert_eq!(channel.id, "42");
    assert_eq!(channel.name, None);
}

#[test]
fn test_envelope_rejects_wrongly_typed_fields() {
    let err = parse_envelope(r#"{"op":"ten"}"#).err().expect("a textual op must be rejected");
    assert!(matches!(err, ProtocolError::Malformed));

    let err = parse_envelope(r#"{"op":0,"t":7}"#).err().expect("a numeric t must be rejected");
    assert!(matches!(err, ProtocolError::Malformed));

    let err = parse_envelope("{\"op\":").err().expect("truncated text must be rejected");
    assert!(matches!(err, ProtocolError::NotJson));
}

#[test]
fn test_hello_payload_requires_interval() {
    let msg = parse_envelope(r#"{"op":10,"d":{"other":1}}"#).ok().expect("envelope should parse");
    let err = parse_hello(&msg.d.unwrap()).err().expect("missing interval must be rejected");
    assert!(matches!(err, ProtocolError::Malformed));
}

#[test]
fn test_identify_escapes_token() {
    let identify = IdentifyPayload {
        token: "a\"b\\c\nd\u{1}e".to_string(),
        properties: IdentifyProperties {
            os: "linux".to_string(),
            browser: "Chrome".to_string(),
            device: "Chrome".to_string(),
        },
    };

    let json = encode_identify(&identify);
    let value: serde_json::Value = serde_json::from_str(&json).expect("escaped frame must be valid JSON");
    assert_eq!(value["op"], 2);
    assert_eq!(value["d"]["token"], "a\"b\\c\nd\u{1}e");
    assert_eq!(value["d"]["properties"]["device"], "Chrome");
}
