use chrono::Utc;
use crosspacket::{
    CodecError, ComprehensivePacket, DataChunkPacket, DynamicValue, Float64, MessagePacket,
    PingPacket, PongPacket, SecureMessagePacket, Timestamp, UserProfilePacket, WallClockTime,
    WireFormat,
};

fn now() -> Timestamp {
    let t = Utc::now();
    Timestamp::from_unix(t.timestamp(), t.timestamp_subsec_nanos()).unwrap()
}

fn fl(x: f64) -> Float64 {
    Float64::from_bits(x.to_bits())
}

fn val(x: Float64) -> f64 {
    f64::from_bits(x.bits)
}

fn hms(h: u32, m: u32, s: u32) -> WallClockTime {
    WallClockTime::from_hms(h, m, s).unwrap()
}

fn text(s: &str) -> DynamicValue {
    DynamicValue::Text(s.to_string())
}

fn text_round_trip(p: ComprehensivePacket) -> ComprehensivePacket {
    let doc = p.encode(WireFormat::Text).expect("JSON serialize failed");
    ComprehensivePacket::decode(doc, WireFormat::Text).expect("JSON deserialize failed")
}

fn binary_round_trip(p: ComprehensivePacket) -> ComprehensivePacket {
    let doc = p.encode(WireFormat::Binary).expect("MsgPack serialize failed");
    ComprehensivePacket::decode(doc, WireFormat::Binary).expect("MsgPack deserialize failed")
}

fn blank(
    int_field: i64,
    float_field: f64,
    string_field: &str,
    bool_field: bool,
) -> ComprehensivePacket {
    ComprehensivePacket::new(
        int_field,
        fl(float_field),
        fl(0.0),
        string_field.to_string(),
        bool_field,
        now(),
        hms(0, 0, 0),
        vec![],
        vec![],
        vec![],
        Vec::new(),
        Vec::new(),
        Vec::new(),
        vec![],
    )
}

fn with_bytes(bytes: Vec<u8>) -> ComprehensivePacket {
    ComprehensivePacket::new(
        0,
        fl(0.0),
        fl(0.0),
        "".to_string(),
        false,
        now(),
        hms(0, 0, 0),
        vec![],
        vec![],
        vec![],
        Vec::new(),
        Vec::new(),
        Vec::new(),
        bytes,
    )
}

// ---- PingPacket ----

#[test]
fn test_ping_packet_constructor() {
    let ts = now();
    let p = PingPacket::new(ts, "test".to_string());
    assert_eq!(p.packet_type, PingPacket::TYPE);
    assert_eq!(p.message, "test");
}

#[test]
fn test_ping_packet_type_constant() {
    assert_eq!(PingPacket::TYPE, "/example/PingPacket");
}

#[test]
fn test_ping_packet_json_roundtrip() {
    let p = PingPacket::new(now(), "hello".to_string());
    let doc = p.encode(WireFormat::Text).expect("JSON serialize failed");
    let decoded = PingPacket::decode(doc, WireFormat::Text).expect("JSON deserialize failed");
    assert_eq!(decoded.message, "hello");
}

#[test]
fn test_ping_packet_msgpack_roundtrip() {
    let p = PingPacket::new(now(), "msgpack test".to_string());
    let doc = p.encode(WireFormat::Binary).expect("MsgPack serialize failed");
    let decoded = PingPacket::decode(doc, WireFormat::Binary).expect("MsgPack deserialize failed");
    assert_eq!(decoded.message, "msgpack test");
}

// ---- PongPacket ----

#[test]
fn test_pong_packet_constructor() {
    let orig = now();
    let resp = orig;
    let p = PongPacket::new(orig, resp, 42);
    assert_eq!(p.packet_type, PongPacket::TYPE);
    assert_eq!(p.latency_ms, 42);
}

#[test]
fn test_pong_packet_type_constant() {
    assert_eq!(PongPacket::TYPE, "/example/PongPacket");
}

#[test]
fn test_pong_packet_json_roundtrip() {
    let p = PongPacket::new(now(), now(), 100);
    let doc = p.encode(WireFormat::Text).expect("JSON serialize failed");
    let decoded = PongPacket::decode(doc, WireFormat::Text).expect("JSON deserialize failed");
    assert_eq!(decoded.latency_ms, 100);
}

#[test]
fn test_pong_packet_msgpack_roundtrip() {
    let p = PongPacket::new(now(), now(), 200);
    let doc = p.encode(WireFormat::Binary).expect("MsgPack serialize failed");
    let decoded = PongPacket::decode(doc, WireFormat::Binary).expect("MsgPack deserialize failed");
    assert_eq!(decoded.latency_ms, 200);
}

// ---- MessagePacket ----

#[test]
fn test_message_packet_constructor() {
    let p = MessagePacket::new("sender1".to_string(), "Hello!".to_string(), now());
    assert_eq!(p.packet_type, MessagePacket::TYPE);
    assert_eq!(p.content, "Hello!");
}

#[test]
fn test_message_packet_type_constant() {
    assert_eq!(MessagePacket::TYPE, "/chat/MessagePacket");
}

#[test]
fn test_message_packet_json_roundtrip() {
    let p = MessagePacket::new("sender".to_string(), "Test content".to_string(), now());
    let doc = p.encode(WireFormat::Text).expect("JSON serialize failed");
    let decoded = MessagePacket::decode(doc, WireFormat::Text).expect("JSON deserialize failed");
    assert_eq!(decoded.content, "Test content");
    assert_eq!(decoded.sender_id, "sender");
}

#[test]
fn test_message_packet_msgpack_roundtrip() {
    let p = MessagePacket::new("s".to_string(), "MsgPack content".to_string(), now());
    let doc = p.encode(WireFormat::Binary).expect("MsgPack serialize failed");
    let decoded =
        MessagePacket::decode(doc, WireFormat::Binary).expect("MsgPack deserialize failed");
    assert_eq!(decoded.content, "MsgPack content");
}

// ---- DataChunkPacket ----

#[test]
fn test_data_chunk_constructor() {
    let p = DataChunkPacket::new(0, 10, Vec::new(), "abc123".to_string());
    assert_eq!(p.packet_type, DataChunkPacket::TYPE);
    assert_eq!(p.chunk_index, 0);
}

#[test]
fn test_data_chunk_type_constant() {
    assert_eq!(DataChunkPacket::TYPE, "/example/DataChunkPacket");
}

#[test]
fn test_data_chunk_json_roundtrip() {
    let data = vec![("key".to_string(), text("value"))];
    let p = DataChunkPacket::new(5, 20, data, "checksum".to_string());
    let doc = p.encode(WireFormat::Text).expect("JSON serialize failed");
    let decoded = DataChunkPacket::decode(doc, WireFormat::Text).expect("JSON deserialize failed");
    assert_eq!(decoded.chunk_index, 5);
    assert_eq!(decoded.total_chunks, 20);
}

#[test]
fn test_data_chunk_msgpack_roundtrip() {
    let p = DataChunkPacket::new(1, 5, Vec::new(), "cs".to_string());
    let doc = p.encode(WireFormat::Binary).expect("MsgPack serialize failed");
    let decoded =
        DataChunkPacket::decode(doc, WireFormat::Binary).expect("MsgPack deserialize failed");
    assert_eq!(decoded.chunk_index, 1);
}

#[test]
fn test_data_chunk_invalid_json() {
    // the document that the text `null` holds
    let result = DataChunkPacket::decode(DynamicValue::Null, WireFormat::Text);
    assert!(result.is_err());
}

#[test]
fn test_data_chunk_invalid_msgpack() {
    // the document that the byte 0x80, an empty map, holds
    let result = DataChunkPacket::decode(DynamicValue::Mapping(vec![]), WireFormat::Binary);
    assert!(result.is_err());
}

// ---- ComprehensivePacket ----

#[test]
fn test_comprehensive_constructor() {
    let p = ComprehensivePacket::new(
        42,
        fl(3.14),
        fl(2.718),
        "test".to_string(),
        true,
        now(),
        hms(12, 30, 0),
        vec![DynamicValue::Int(1)],
        vec![1, 2, 3],
        vec!["a".to_string(), "b".to_string()],
        Vec::new(),
        Vec::new(),
        Vec::new(),
        vec![0xDE, 0xAD],
    );
    assert_eq!(p.packet_type, ComprehensivePacket::TYPE);
    assert_eq!(p.int_field, 42);
}

#[test]
fn test_comprehensive_type_constant() {
    assert_eq!(ComprehensivePacket::TYPE, "/test/ComprehensivePacket");
}

#[test]
fn test_comprehensive_json_roundtrip() {
    let map = vec![("key".to_string(), text("value"))];
    let p = ComprehensivePacket::new(
        100,
        fl(99.99),
        fl(88.88),
        "comprehensive".to_string(),
        false,
        now(),
        hms(10, 0, 0),
        vec![text("item")],
        vec![10, 20],
        vec!["x".to_string()],
        map,
        Vec::new(),
        Vec::new(),
        vec![1, 2, 3, 4],
    );
    let decoded = text_round_trip(p);
    assert_eq!(decoded.int_field, 100);
    assert_eq!(decoded.string_field, "comprehensive");
}

#[test]
fn test_comprehensive_msgpack_roundtrip() {
    let p = ComprehensivePacket::new(
        999,
        fl(1.5),
        fl(2.5),
        "mp".to_string(),
        true,
        now(),
        hms(15, 30, 45),
        vec![],
        vec![],
        vec![],
        Vec::new(),
        Vec::new(),
        Vec::new(),
        vec![],
    );
    let decoded = binary_round_trip(p);
    assert_eq!(decoded.int_field, 999);
}

#[test]
fn test_comprehensive_invalid_json() {
    // the document that the text `[]` holds
    let result = ComprehensivePacket::decode(DynamicValue::List(vec![]), WireFormat::Text);
    assert!(result.is_err());
}

// ---- UserProfilePacket ----

#[test]
fn test_user_profile_constructor() {
    let p = UserProfilePacket::new(
        123,
        "john_doe".to_string(),
        "john@example.com".to_string(),
        Some("Hello!".to_string()),
        Some(30),
        fl(100.50),
        vec!["admin".to_string()],
        Vec::new(),
        None,
        now(),
        None,
    );
    assert_eq!(p.packet_type, UserProfilePacket::TYPE);
    assert_eq!(p.username, "john_doe");
}

#[test]
fn test_user_profile_type_constant() {
    assert_eq!(UserProfilePacket::TYPE, "/example/UserProfilePacket");
}

#[test]
fn test_user_profile_json_roundtrip() {
    let p = UserProfilePacket::new(
        1,
        "alice".to_string(),
        "alice@test.com".to_string(),
        None,
        Some(25),
        fl(50.0),
        vec!["user".to_string()],
        Vec::new(),
        None,
        now(),
        None,
    );
    let doc = p.encode(WireFormat::Text).expect("JSON serialize failed");
    let decoded =
        UserProfilePacket::decode(doc, WireFormat::Text).expect("JSON deserialize failed");
    assert_eq!(decoded.username, "alice");
    assert_eq!(decoded.age, Some(25));
}

#[test]
fn test_user_profile_msgpack_roundtrip() {
    let p = UserProfilePacket::new(
        2,
        "bob".to_string(),
        "bob@test.com".to_string(),
        Some("Bio".to_string()),
        Some(35),
        fl(999.99),
        vec![],
        Vec::new(),
        None,
        now(),
        Some(now()),
    );
    let doc = p.encode(WireFormat::Binary).expect("MsgPack serialize failed");
    let decoded =
        UserProfilePacket::decode(doc, WireFormat::Binary).expect("MsgPack deserialize failed");
    assert_eq!(decoded.username, "bob");
}

#[test]
fn test_user_profile_invalid_json() {
    // the document that the text `123` holds
    let result = UserProfilePacket::decode(DynamicValue::Int(123), WireFormat::Text);
    assert!(result.is_err());
}

// ---- SecureMessagePacket ----

#[test]
fn test_secure_message_constructor() {
    let p = SecureMessagePacket::new(
        "msg-001".to_string(),
        1,
        2,
        "Subject".to_string(),
        "Body text".to_string(),
        vec![],
        Some(vec![0x01, 0x02, 0x03]),
        1,
        false,
        now(),
    );
    assert_eq!(p.packet_type, SecureMessagePacket::TYPE);
    assert_eq!(p.message_id, "msg-001");
}

#[test]
fn test_secure_message_type_constant() {
    assert_eq!(SecureMessagePacket::TYPE, "/example/SecureMessagePacket");
}

#[test]
fn test_secure_message_json_roundtrip() {
    let attachment = DynamicValue::Mapping(vec![("file".to_string(), text("doc.pdf"))]);
    let p = SecureMessagePacket::new(
        "sec-123".to_string(),
        10,
        20,
        "Hello".to_string(),
        "World".to_string(),
        vec![attachment],
        None,
        5,
        true,
        now(),
    );
    let doc = p.encode(WireFormat::Text).expect("JSON serialize failed");
    let decoded =
        SecureMessagePacket::decode(doc, WireFormat::Text).expect("JSON deserialize failed");
    assert_eq!(decoded.message_id, "sec-123");
    assert_eq!(decoded.subject, "Hello");
}

#[test]
fn test_secure_message_msgpack_roundtrip() {
    let p = SecureMessagePacket::new(
        "mp-sec".to_string(),
        100,
        200,
        "Test".to_string(),
        "Content".to_string(),
        vec![],
        Some(vec![0xDE, 0xAD]),
        3,
        false,
        now(),
    );
    let doc = p.encode(WireFormat::Binary).expect("MsgPack serialize failed");
    let decoded =
        SecureMessagePacket::decode(doc, WireFormat::Binary).expect("MsgPack deserialize failed");
    assert_eq!(decoded.message_id, "mp-sec");
}

#[test]
fn test_secure_message_invalid_json() {
    // the document that the text `{}` holds
    let result = SecureMessagePacket::decode(DynamicValue::Mapping(vec![]), WireFormat::Text);
    assert!(result.is_err());
}

#[test]
fn test_secure_message_invalid_msgpack() {
    // the document that the byte 0xC0, nil, holds
    let result = SecureMessagePacket::decode(DynamicValue::Null, WireFormat::Binary);
    assert!(result.is_err());
}

// ---- integers ----

#[test]
fn test_int_zero() {
    assert_eq!(text_round_trip(blank(0, 0.0, "", false)).int_field, 0);
}

#[test]
fn test_int_positive() {
    assert_eq!(text_round_trip(blank(42, 0.0, "", false)).int_field, 42);
}

#[test]
fn test_int_negative() {
    assert_eq!(text_round_trip(blank(-999, 0.0, "", false)).int_field, -999);
}

#[test]
fn test_int_large_positive() {
    let decoded = binary_round_trip(blank(9223372036854775807i64, 0.0, "", false));
    assert_eq!(decoded.int_field, 9223372036854775807i64);
}

#[test]
fn test_int_large_negative() {
    let decoded = binary_round_trip(blank(-9223372036854775808i64, 0.0, "", false));
    assert_eq!(decoded.int_field, -9223372036854775808i64);
}

// ---- floats ----

#[test]
fn test_float_zero() {
    let decoded = text_round_trip(blank(0, 0.0, "", false));
    assert!((val(decoded.float_field) - 0.0).abs() < f64::EPSILON);
}

#[test]
fn test_float_pi() {
    let decoded = text_round_trip(blank(0, std::f64::consts::PI, "", false));
    assert!((val(decoded.float_field) - std::f64::consts::PI).abs() < 1e-10);
}

#[test]
fn test_float_euler() {
    let decoded = text_round_trip(blank(0, std::f64::consts::E, "", false));
    assert!((val(decoded.float_field) - std::f64::consts::E).abs() < 1e-10);
}

#[test]
fn test_float_negative() {
    let decoded = text_round_trip(blank(0, -123.456, "", false));
    assert!((val(decoded.float_field) - (-123.456)).abs() < 1e-10);
}

#[test]
fn test_float_very_small() {
    let decoded = text_round_trip(blank(0, 1e-100, "", false));
    assert!(val(decoded.float_field) > 0.0 && val(decoded.float_field) < 1e-50);
}

#[test]
fn test_float_very_large() {
    let decoded = text_round_trip(blank(0, 1e100, "", false));
    assert!(val(decoded.float_field) > 1e50);
}

// ---- strings ----

#[test]
fn test_string_empty() {
    assert_eq!(text_round_trip(blank(0, 0.0, "", false)).string_field, "");
}

#[test]
fn test_string_unicode() {
    let decoded = text_round_trip(blank(0, 0.0, "Hello 世界 🌍 مرحبا", false));
    assert_eq!(decoded.string_field, "Hello 世界 🌍 مرحبا");
}

#[test]
fn test_string_special_chars() {
    let decoded = text_round_trip(blank(0, 0.0, "Quote: \"test\" Backslash: \\ Tab: \t", false));
    assert!(decoded.string_field.contains("Quote"));
}

#[test]
fn test_string_newlines() {
    let decoded = text_round_trip(blank(0, 0.0, "line1\nline2\r\nline3", false));
    assert!(decoded.string_field.contains("line1"));
}

#[test]
fn test_string_whitespace() {
    let decoded = text_round_trip(blank(0, 0.0, "   spaces   ", false));
    assert_eq!(decoded.string_field, "   spaces   ");
}

// ---- booleans ----

#[test]
fn test_bool_true() {
    assert!(text_round_trip(blank(0, 0.0, "", true)).bool_field);
}

#[test]
fn test_bool_false() {
    assert!(!text_round_trip(blank(0, 0.0, "", false)).bool_field);
}

// ---- lists ----

#[test]
fn test_list_empty() {
    assert!(text_round_trip(blank(0, 0.0, "", false)).list_field.is_empty());
}

#[test]
fn test_list_int() {
    let mut p = blank(0, 0.0, "", false);
    p.list_int_field = vec![1, 2, 3, 4, 5];
    assert_eq!(text_round_trip(p).list_int_field.len(), 5);
}

#[test]
fn test_list_string() {
    let mut p = blank(0, 0.0, "", false);
    p.list_string_field = vec!["a".to_string(), "b".to_string(), "c".to_string()];
    assert_eq!(text_round_trip(p).list_string_field.len(), 3);
}

#[test]
fn test_list_mixed_values() {
    let mut p = blank(0, 0.0, "", false);
    p.list_field = vec![DynamicValue::Int(1), text("two"), DynamicValue::Float(3.0f64.to_bits())];
    assert_eq!(text_round_trip(p).list_field.len(), 3);
}

// ---- maps ----

#[test]
fn test_map_empty() {
    assert!(text_round_trip(blank(0, 0.0, "", false)).map_field.is_empty());
}

#[test]
fn test_map_with_entries() {
    let mut p = blank(0, 0.0, "", false);
    p.map_field = vec![
        ("key1".to_string(), text("value1")),
        ("key2".to_string(), DynamicValue::Int(42)),
        ("key3".to_string(), DynamicValue::Bool(true)),
    ];
    assert_eq!(text_round_trip(p).map_field.len(), 3);
}

// ---- byte buffers ----

#[test]
fn test_bytes_empty() {
    assert!(binary_round_trip(with_bytes(vec![])).bytes_field.is_empty());
}

#[test]
fn test_bytes_deadbeef() {
    let decoded = binary_round_trip(with_bytes(vec![0xDE, 0xAD, 0xBE, 0xEF]));
    assert_eq!(decoded.bytes_field, vec![0xDE, 0xAD, 0xBE, 0xEF]);
}

#[test]
fn test_bytes_all_zeros() {
    let decoded = binary_round_trip(with_bytes(vec![0x00, 0x00, 0x00, 0x00]));
    assert_eq!(decoded.bytes_field, vec![0x00, 0x00, 0x00, 0x00]);
}

#[test]
fn test_bytes_all_ones() {
    let decoded = binary_round_trip(with_bytes(vec![0xFF, 0xFF, 0xFF, 0xFF]));
    assert_eq!(decoded.bytes_field, vec![0xFF, 0xFF, 0xFF, 0xFF]);
}

// ---- a payload with every field set ----

fn security_payload() -> ComprehensivePacket {
    let secure_map = vec![
        ("source_account".to_string(), text("ACC-12345")),
        ("dest_account".to_string(), text("ACC-67890")),
        ("amount_cents".to_string(), DynamicValue::Int(9999999)),
    ];
    ComprehensivePacket::new(
        1234567890123456789i64,
        fl(99999.99),
        fl(88888.88),
        "TRANSFER:ACC-12345→ACC-67890".to_string(),
        true,
        now(),
        hms(12, 0, 0),
        vec![text("audit1"), text("audit2")],
        vec![1, 2, 3],
        vec!["log1".to_string()],
        secure_map,
        Vec::new(),
        Vec::new(),
        vec![0xDE, 0xAD, 0xBE, 0xEF],
    )
}

#[test]
fn test_security_critical_payload() {
    let decoded_json = text_round_trip(security_payload());
    assert_eq!(decoded_json.int_field, 1234567890123456789i64);
    assert_eq!(decoded_json.string_field, "TRANSFER:ACC-12345→ACC-67890");
    assert!(decoded_json.bool_field);

    let decoded_mp = binary_round_trip(security_payload());
    assert_eq!(decoded_mp.int_field, 1234567890123456789i64);
    assert_eq!(decoded_mp.string_field, "TRANSFER:ACC-12345→ACC-67890");
}

#[test]
fn test_type_id_mismatch_is_a_shape_error() {
    let p = PingPacket::new(now(), "x".to_string());
    let doc = p.encode(WireFormat::Text).unwrap();
    let mut entries = match doc {
        DynamicValue::Mapping(e) => e,
        _ => panic!("not an object"),
    };
    entries[0].1 = text("/example/PongPacket");
    let r = PingPacket::decode(DynamicValue::Mapping(entries), WireFormat::Text);
    assert_eq!(r.err(), Some(CodecError::ShapeMismatch));
}
