use crosspacket::{
    decode_hex, encode_hex, CodecError, ComprehensivePacket, DynamicValue, Float64, PingPacket,
    SecureMessagePacket, Timestamp, UserProfilePacket, WallClockTime, WireFormat,
};

fn text(s: &str) -> DynamicValue {
    DynamicValue::Text(s.to_string())
}

fn epoch_plus(secs: i64, nanos: u32) -> Timestamp {
    Timestamp::from_unix(secs, nanos).unwrap()
}

fn entries(doc: DynamicValue) -> Vec<(String, DynamicValue)> {
    match doc {
        DynamicValue::Mapping(e) => e,
        other => panic!("not an object: {:?}", other),
    }
}

fn comprehensive(bytes: Vec<u8>) -> ComprehensivePacket {
    ComprehensivePacket::new(
        7,
        Float64::from_bits(1.25f64.to_bits()),
        Float64::from_bits((-2.5f64).to_bits()),
        "s".to_string(),
        true,
        epoch_plus(1_500_000_000, 123_000_000),
        WallClockTime::from_hms(12, 30, 0).unwrap(),
        vec![],
        vec![],
        vec![],
        vec![],
        vec![],
        vec![],
        bytes,
    )
}

fn secure(payload: Option<Vec<u8>>) -> SecureMessagePacket {
    SecureMessagePacket::new(
        "id".to_string(),
        1,
        2,
        "s".to_string(),
        "b".to_string(),
        vec![],
        payload,
        0,
        false,
        epoch_plus(0, 0),
    )
}

fn profile() -> UserProfilePacket {
    UserProfilePacket::new(
        1,
        "u".to_string(),
        "e".to_string(),
        None,
        None,
        Float64::from_bits(0),
        vec![],
        vec![],
        None,
        epoch_plus(0, 0),
        None,
    )
}

#[test]
fn hex_encodes_two_lowercase_digits_per_byte() {
    assert_eq!(encode_hex(&vec![0xDE, 0xAD, 0xBE, 0xEF]), "deadbeef");
    assert_eq!(encode_hex(&vec![0x00, 0x0F]), "000f");
    assert_eq!(encode_hex(&vec![]), "");
}

#[test]
fn hex_decodes_either_case_and_rejects_bad_text() {
    assert_eq!(decode_hex("DEADbeef"), Some(vec![0xDE, 0xAD, 0xBE, 0xEF]));
    assert_eq!(decode_hex(""), Some(vec![]));
    assert_eq!(decode_hex("abc"), None);
    assert_eq!(decode_hex("zz"), None);
}

#[test]
fn text_form_writes_type_id_first_under_packet_type() {
    let doc = PingPacket::new(epoch_plus(0, 0), "hello".to_string()).encode(WireFormat::Text);
    let e = entries(doc.unwrap());
    assert_eq!(e.len(), 3);
    assert_eq!(e[0].0, "packetType");
    assert!(matches!(&e[0].1, DynamicValue::Text(t) if t == "/example/PingPacket"));
    assert_eq!(e[1].0, "timestamp");
    assert_eq!(e[2].0, "message");
}

#[test]
fn text_form_writes_instants_as_rfc3339() {
    let doc = PingPacket::new(epoch_plus(0, 0), "m".to_string()).encode(WireFormat::Text);
    let e = entries(doc.unwrap());
    assert!(matches!(&e[1].1, DynamicValue::Text(t) if t == "1970-01-01T00:00:00.000000000Z"));
}

#[test]
fn text_form_reads_instants_with_an_offset() {
    let doc = DynamicValue::Mapping(vec![
        ("packetType".to_string(), text("/example/PingPacket")),
        ("timestamp".to_string(), text("1970-01-01T02:00:01.5+02:00")),
        ("message".to_string(), text("m")),
    ]);
    let p = PingPacket::decode(doc, WireFormat::Text).unwrap();
    assert_eq!(p.timestamp, epoch_plus(1, 500_000_000));
}

#[test]
fn binary_form_writes_instants_as_seconds_and_nanos() {
    let doc = PingPacket::new(epoch_plus(-5, 7), "m".to_string()).encode(WireFormat::Binary);
    let e = entries(doc.unwrap());
    match &e[1].1 {
        DynamicValue::List(items) => {
            assert!(matches!(items[0], DynamicValue::Int(-5)));
            assert!(matches!(items[1], DynamicValue::Int(7)));
        }
        other => panic!("unexpected {:?}", other),
    }
}

#[test]
fn text_form_writes_time_of_day_and_hex_bytes() {
    let e = entries(comprehensive(vec![0xDE, 0xAD]).encode(WireFormat::Text).unwrap());
    assert_eq!(e[7].0, "time_field");
    assert!(matches!(&e[7].1, DynamicValue::Text(t) if t == "12:30:00"));
    assert_eq!(e[14].0, "bytes_field");
    assert!(matches!(&e[14].1, DynamicValue::Text(t) if t == "dead"));
}

#[test]
fn binary_form_writes_raw_bytes() {
    let e = entries(comprehensive(vec![0xDE, 0xAD]).encode(WireFormat::Binary).unwrap());
    assert!(matches!(&e[14].1, DynamicValue::Bytes(b) if b == &vec![0xDE, 0xAD]));
}

#[test]
fn every_field_survives_both_forms() {
    for format in [WireFormat::Text, WireFormat::Binary] {
        let doc = comprehensive(vec![1, 2, 3]).encode(format).unwrap();
        let q = ComprehensivePacket::decode(doc, format).unwrap();
        assert_eq!(q.int_field, 7);
        assert_eq!(f64::from_bits(q.float_field.bits), 1.25);
        assert_eq!(f64::from_bits(q.double_field.bits), -2.5);
        assert_eq!(q.datetime_field, epoch_plus(1_500_000_000, 123_000_000));
        assert_eq!(q.time_field, WallClockTime::from_hms(12, 30, 0).unwrap());
        assert_eq!(q.bytes_field, vec![1, 2, 3]);
    }
}

#[test]
fn ping_scenario_keeps_message_and_type_id() {
    let doc = PingPacket::new(epoch_plus(0, 0), "hello".to_string()).encode(WireFormat::Text);
    let q = PingPacket::decode(doc.unwrap(), WireFormat::Text).unwrap();
    assert_eq!(q.message, "hello");
    assert_eq!(q.packet_type, "/example/PingPacket");
}

#[test]
fn deadbeef_scenario_survives_binary_form() {
    let doc = comprehensive(vec![0xDE, 0xAD, 0xBE, 0xEF]).encode(WireFormat::Binary);
    let q = ComprehensivePacket::decode(doc.unwrap(), WireFormat::Binary).unwrap();
    assert_eq!(q.bytes_field, vec![0xDE, 0xAD, 0xBE, 0xEF]);
}

#[test]
fn unset_payload_scenario_stays_unset() {
    let doc = secure(None).encode(WireFormat::Text).unwrap();
    let e = entries(doc);
    assert_eq!(e[7].0, "encrypted_payload");
    assert!(matches!(e[7].1, DynamicValue::Null));
    let q = SecureMessagePacket::decode(DynamicValue::Mapping(e), WireFormat::Text).unwrap();
    assert_eq!(q.encrypted_payload, None);
}

#[test]
fn empty_payload_is_not_unset() {
    let doc = secure(Some(vec![])).encode(WireFormat::Text).unwrap();
    let q = SecureMessagePacket::decode(doc, WireFormat::Text).unwrap();
    assert_eq!(q.encrypted_payload, Some(vec![]));
}

#[test]
fn absent_optional_key_reads_as_unset() {
    let mut e = entries(profile().encode(WireFormat::Binary).unwrap());
    e.retain(|(k, _)| k != "bio" && k != "last_login");
    let q = UserProfilePacket::decode(DynamicValue::Mapping(e), WireFormat::Binary).unwrap();
    assert_eq!(q.bio, None);
    assert_eq!(q.last_login, None);
}

#[test]
fn unset_optionals_round_trip_unset() {
    let q = UserProfilePacket::decode(profile().encode(WireFormat::Text).unwrap(), WireFormat::Text)
        .unwrap();
    assert_eq!(q.bio, None);
    assert_eq!(q.age, None);
    assert_eq!(q.avatar, None);
    assert_eq!(q.last_login, None);
}

#[test]
fn empty_collections_are_lists_and_objects() {
    let e = entries(comprehensive(vec![]).encode(WireFormat::Text).unwrap());
    assert!(matches!(&e[8].1, DynamicValue::List(v) if v.is_empty()));
    assert!(matches!(&e[11].1, DynamicValue::Mapping(v) if v.is_empty()));
}

#[test]
fn non_object_documents_are_unknown_shapes() {
    for doc in [
        DynamicValue::Null,
        DynamicValue::Int(123),
        DynamicValue::List(vec![]),
        text("x"),
    ] {
        assert_eq!(
            PingPacket::decode(doc, WireFormat::Text).err(),
            Some(CodecError::UnknownTopLevelShape)
        );
    }
}

#[test]
fn empty_object_is_missing_a_field() {
    let r = PingPacket::decode(DynamicValue::Mapping(vec![]), WireFormat::Binary);
    assert_eq!(r.err(), Some(CodecError::MissingRequiredField));
}

#[test]
fn missing_field_is_reported() {
    let doc = DynamicValue::Mapping(vec![
        ("packetType".to_string(), text("/example/PingPacket")),
        ("timestamp".to_string(), text("1970-01-01T00:00:00Z")),
    ]);
    assert_eq!(
        PingPacket::decode(doc, WireFormat::Text).err(),
        Some(CodecError::MissingRequiredField)
    );
}

#[test]
fn wrong_shape_is_reported() {
    let doc = DynamicValue::Mapping(vec![
        ("packetType".to_string(), text("/example/PingPacket")),
        ("timestamp".to_string(), text("not a date")),
        ("message".to_string(), text("m")),
    ]);
    assert_eq!(
        PingPacket::decode(doc, WireFormat::Text).err(),
        Some(CodecError::ShapeMismatch)
    );
    let doc = DynamicValue::Mapping(vec![
        ("packetType".to_string(), text("/example/PingPacket")),
        ("timestamp".to_string(), text("1970-01-01T00:00:00Z")),
        ("message".to_string(), DynamicValue::Int(3)),
    ]);
    assert_eq!(
        PingPacket::decode(doc, WireFormat::Text).err(),
        Some(CodecError::ShapeMismatch)
    );
}

#[test]
fn bad_hex_text_is_a_shape_error() {
    let mut e = entries(comprehensive(vec![1]).encode(WireFormat::Text).unwrap());
    e[14].1 = text("xyz");
    let r = ComprehensivePacket::decode(DynamicValue::Mapping(e), WireFormat::Text);
    assert_eq!(r.err(), Some(CodecError::ShapeMismatch));
}

#[test]
fn first_of_repeated_keys_counts() {
    let doc = DynamicValue::Mapping(vec![
        ("packetType".to_string(), text("/example/PingPacket")),
        ("message".to_string(), text("first")),
        ("timestamp".to_string(), text("1970-01-01T00:00:00Z")),
        ("message".to_string(), text("second")),
        ("extra".to_string(), DynamicValue::Bool(true)),
    ]);
    assert_eq!(PingPacket::decode(doc, WireFormat::Text).unwrap().message, "first");
}

#[test]
fn out_of_range_instant_cannot_be_encoded() {
    let p = PingPacket::new(Timestamp { secs: i64::MAX, nanos: 0 }, "m".to_string());
    assert_eq!(p.encode(WireFormat::Text).err(), Some(CodecError::EncodeFailure));
    assert_eq!(Timestamp::from_unix(i64::MAX, 0), None);
    assert_eq!(Timestamp::from_unix(0, 1_000_000_000), None);
}

#[test]
fn time_of_day_bounds() {
    assert_eq!(WallClockTime::from_hms(24, 0, 0), None);
    assert_eq!(WallClockTime::from_seconds(86_399, 999_999_999).map(|t| t.secs), Some(86_399));
    assert_eq!(WallClockTime::from_seconds(86_400, 0), None);
}

#[test]
fn binary_instant_out_of_range_is_a_shape_error() {
    let doc = DynamicValue::Mapping(vec![
        ("packetType".to_string(), text("/example/PingPacket")),
        (
            "timestamp".to_string(),
            DynamicValue::List(vec![DynamicValue::Int(0), DynamicValue::Int(2_000_000_000)]),
        ),
        ("message".to_string(), text("m")),
    ]);
    assert_eq!(
        PingPacket::decode(doc, WireFormat::Binary).err(),
        Some(CodecError::ShapeMismatch)
    );
}

#[test]
fn mappings_compare_whatever_their_order() {
    let a = DynamicValue::Mapping(vec![
        ("x".to_string(), DynamicValue::Int(1)),
        ("y".to_string(), DynamicValue::List(vec![text("a"), DynamicValue::Null])),
    ]);
    let b = DynamicValue::Mapping(vec![
        ("y".to_string(), DynamicValue::List(vec![text("a"), DynamicValue::Null])),
        ("x".to_string(), DynamicValue::Int(1)),
    ]);
    assert!(a.same_as(&b));
    assert!(b.same_as(&a));
}

#[test]
fn values_that_differ_compare_unequal() {
    let a = DynamicValue::List(vec![DynamicValue::Int(1), DynamicValue::Int(2)]);
    let b = DynamicValue::List(vec![DynamicValue::Int(2), DynamicValue::Int(1)]);
    assert!(!a.same_as(&b));
    let m = DynamicValue::Mapping(vec![("x".to_string(), DynamicValue::Int(1))]);
    let n = DynamicValue::Mapping(vec![("z".to_string(), DynamicValue::Int(1))]);
    assert!(!m.same_as(&n));
    assert!(!DynamicValue::Int(1).same_as(&DynamicValue::Float(1)));
    assert!(DynamicValue::Bytes(vec![1, 2]).same_as(&DynamicValue::Bytes(vec![1, 2])));
    assert!(!DynamicValue::Bytes(vec![1, 2]).same_as(&DynamicValue::Bytes(vec![1])));
}

#[test]
fn dynamic_content_survives_both_forms() {
    let nested = DynamicValue::Mapping(vec![
        ("big".to_string(), DynamicValue::Int(i64::MAX)),
        ("list".to_string(), DynamicValue::List(vec![DynamicValue::Bool(true), DynamicValue::Null])),
    ]);
    let expected = DynamicValue::Mapping(vec![
        ("list".to_string(), DynamicValue::List(vec![DynamicValue::Bool(true), DynamicValue::Null])),
        ("big".to_string(), DynamicValue::Int(i64::MAX)),
    ]);
    for format in [WireFormat::Text, WireFormat::Binary] {
        let mut p = comprehensive(vec![]);
        p.list_field = vec![DynamicValue::Int(i64::MIN)];
        p.map_field = vec![("nested".to_string(), nested_copy(&nested))];
        let q = ComprehensivePacket::decode(p.encode(format).unwrap(), format).unwrap();
        assert!(q.list_field[0].same_as(&DynamicValue::Int(i64::MIN)));
        assert_eq!(q.map_field[0].0, "nested");
        assert!(q.map_field[0].1.same_as(&expected));
    }
}

fn nested_copy(v: &DynamicValue) -> DynamicValue {
    match v {
        DynamicValue::Null => DynamicValue::Null,
        DynamicValue::Bool(b) => DynamicValue::Bool(*b),
        DynamicValue::Int(i) => DynamicValue::Int(*i),
        DynamicValue::Float(f) => DynamicValue::Float(*f),
        DynamicValue::Text(t) => DynamicValue::Text(t.clone()),
        DynamicValue::Bytes(b) => DynamicValue::Bytes(b.clone()),
        DynamicValue::List(items) => DynamicValue::List(items.iter().map(nested_copy).collect()),
        DynamicValue::Mapping(es) => {
            DynamicValue::Mapping(es.iter().map(|(k, x)| (k.clone(), nested_copy(x))).collect())
        }
    }
}
