use modality_dlt::convert::{dlt_message_to_event_attrs, dlt_message_to_event_name, AttrVal, TimelineKey};
use modality_dlt::message::{
    Argument, ControlKind, ExtendedHeader, LogLevel, Message, MessageKind, Payload, Value,
};
use modality_dlt::CommonConfig;

fn default_config() -> CommonConfig {
    CommonConfig {
        timeline_from_ecu_id: None,
        timeline_from_session_id: None,
        timeline_from_application_id: None,
        timeline_from_context_id: None,
    }
}

fn plain_message() -> Message {
    Message {
        ecu_id: Some("ECU1".to_string()),
        session_id: Some(7),
        timestamp: Some(1234),
        extended_header: None,
        payload: Payload::NonVerbose(42, vec![]),
    }
}

#[test]
fn same_configured_components_same_key() {
    let cfg = default_config();
    let mut m1 = plain_message();
    let mut m2 = plain_message();
    // Differing non-configured parts: payload, timestamp, extended header.
    m1.payload = Payload::NonVerbose(1, vec![1]);
    m2.payload = Payload::Verbose(vec![]);
    m2.timestamp = Some(9999);
    m2.extended_header = Some(ExtendedHeader {
        application_id: "APP".to_string(),
        context_id: "CTX".to_string(),
        message_type: MessageKind::Unknown,
    });
    let k1 = TimelineKey::for_message(&m1, &cfg);
    let k2 = TimelineKey::for_message(&m2, &cfg);
    assert!(k1.key_eq(&k2));
}

#[test]
fn changed_configured_component_changes_key() {
    let cfg = default_config();
    let m1 = plain_message();
    let mut m2 = plain_message();
    m2.session_id = Some(8);
    let k1 = TimelineKey::for_message(&m1, &cfg);
    let k2 = TimelineKey::for_message(&m2, &cfg);
    assert!(!k1.key_eq(&k2));

    let mut m3 = plain_message();
    m3.ecu_id = Some("ECU2".to_string());
    let k3 = TimelineKey::for_message(&m3, &cfg);
    assert!(!k1.key_eq(&k3));
}

#[test]
fn absent_component_differs_from_empty_string() {
    let cfg = default_config();
    let mut m1 = plain_message();
    m1.ecu_id = None;
    let mut m2 = plain_message();
    m2.ecu_id = Some(String::new());
    let k1 = TimelineKey::for_message(&m1, &cfg);
    let k2 = TimelineKey::for_message(&m2, &cfg);
    assert!(!k1.key_eq(&k2));
}

#[test]
fn switched_off_component_never_parts_keys() {
    let mut cfg = default_config();
    cfg.timeline_from_session_id = Some(false);
    let m1 = plain_message();
    let mut m2 = plain_message();
    m2.session_id = Some(999);
    let k1 = TimelineKey::for_message(&m1, &cfg);
    let k2 = TimelineKey::for_message(&m2, &cfg);
    assert!(k1.key_eq(&k2));
}

#[test]
fn timeline_name_joins_present_components() {
    let mut cfg = default_config();
    cfg.timeline_from_application_id = Some(true);
    cfg.timeline_from_context_id = Some(true);
    let mut m = plain_message();
    m.extended_header = Some(ExtendedHeader {
        application_id: "APP".to_string(),
        context_id: "CTX".to_string(),
        message_type: MessageKind::Unknown,
    });
    let k = TimelineKey::for_message(&m, &cfg);
    assert_eq!(k.timeline_name(), "ECU1.APP.CTX");
}

#[test]
fn timeline_name_of_empty_key_is_unnamed() {
    let cfg = CommonConfig {
        timeline_from_ecu_id: Some(false),
        timeline_from_session_id: Some(false),
        timeline_from_application_id: None,
        timeline_from_context_id: None,
    };
    let m = plain_message();
    let k = TimelineKey::for_message(&m, &cfg);
    assert_eq!(k.timeline_name(), "unnamed");
}

#[test]
fn session_id_contributes_to_attrs_not_name() {
    let cfg = default_config();
    let m = plain_message();
    let k = TimelineKey::for_message(&m, &cfg);
    assert_eq!(k.timeline_name(), "ECU1");
    let attrs = k.timeline_attrs();
    assert_eq!(
        attrs,
        vec![
            ("timeline.ecu_id".to_string(), AttrVal::Text("ECU1".to_string())),
            ("timeline.session_id".to_string(), AttrVal::Int(7)),
        ]
    );
}

#[test]
fn event_name_from_extended_header() {
    let mut m = plain_message();
    m.extended_header = Some(ExtendedHeader {
        application_id: "APP".to_string(),
        context_id: "CTX".to_string(),
        message_type: MessageKind::Log(LogLevel::Warn),
    });
    assert_eq!(dlt_message_to_event_name(&m), "log");
}

#[test]
fn event_name_from_payload_shape() {
    let mut m = plain_message();
    m.payload = Payload::NonVerbose(1, vec![]);
    assert_eq!(dlt_message_to_event_name(&m), "non_verbose");
    m.payload = Payload::Verbose(vec![]);
    assert_eq!(dlt_message_to_event_name(&m), "verbose");
    m.payload = Payload::Control(ControlKind::Request, vec![]);
    assert_eq!(dlt_message_to_event_name(&m), "control");
}

#[test]
fn header_attrs_with_timestamp_in_nanoseconds() {
    let m = plain_message();
    let attrs = dlt_message_to_event_attrs(&m);
    assert_eq!(attrs[0], ("event.ecu_id".to_string(), AttrVal::Text("ECU1".to_string())));
    assert_eq!(attrs[1], ("event.session_id".to_string(), AttrVal::Int(7)));
    // 1234 tenths of a millisecond = 123_400_000 ns.
    assert_eq!(attrs[2], ("event.timestamp".to_string(), AttrVal::TimestampNs(123_400_000)));
    assert_eq!(attrs[3], ("event.payload_type".to_string(), AttrVal::Text("non_verbose".to_string())));
    assert_eq!(attrs[4], ("event.message_id".to_string(), AttrVal::Int(42)));
    assert_eq!(attrs.len(), 5);
}

#[test]
fn log_level_attr_is_lower_cased() {
    let mut m = plain_message();
    m.extended_header = Some(ExtendedHeader {
        application_id: "APP".to_string(),
        context_id: "CTX".to_string(),
        message_type: MessageKind::Log(LogLevel::Warn),
    });
    let attrs = dlt_message_to_event_attrs(&m);
    assert!(attrs.contains(&("event.log_level".to_string(), AttrVal::Text("warn".to_string()))));
    assert!(attrs.contains(&("event.application_id".to_string(), AttrVal::Text("APP".to_string()))));
    assert!(attrs.contains(&("event.context_id".to_string(), AttrVal::Text("CTX".to_string()))));
}

#[test]
fn single_unnamed_argument_flattens() {
    let mut m = plain_message();
    m.ecu_id = None;
    m.session_id = None;
    m.timestamp = None;
    m.payload = Payload::Verbose(vec![Argument { name: None, value: Value::I32(42) }]);
    let attrs = dlt_message_to_event_attrs(&m);
    assert_eq!(attrs, vec![("event.payload".to_string(), AttrVal::Int(42))]);
}

#[test]
fn named_argument_is_not_flattened() {
    let mut m = plain_message();
    m.ecu_id = None;
    m.session_id = None;
    m.timestamp = None;
    m.payload = Payload::Verbose(vec![
        Argument { name: Some("x".to_string()), value: Value::I32(42) },
        Argument { name: None, value: Value::I32(7) },
    ]);
    let attrs = dlt_message_to_event_attrs(&m);
    assert_eq!(
        attrs,
        vec![
            ("event.payload.x".to_string(), AttrVal::Int(42)),
            ("event.payload.1".to_string(), AttrVal::Int(7)),
        ]
    );
}

#[test]
fn unnamed_arguments_are_indexed_from_zero() {
    let mut m = plain_message();
    m.ecu_id = None;
    m.session_id = None;
    m.timestamp = None;
    m.payload = Payload::Verbose(vec![
        Argument { name: None, value: Value::U8(1) },
        Argument { name: Some(String::new()), value: Value::U8(2) },
        Argument { name: None, value: Value::U8(3) },
    ]);
    let attrs = dlt_message_to_event_attrs(&m);
    assert_eq!(
        attrs,
        vec![
            ("event.payload.0".to_string(), AttrVal::Int(1)),
            ("event.payload.1".to_string(), AttrVal::Int(2)),
            ("event.payload.2".to_string(), AttrVal::Int(3)),
        ]
    );
}

#[test]
fn oversized_unsigned_128_bit_value_is_omitted() {
    let mut m = plain_message();
    m.ecu_id = None;
    m.session_id = None;
    m.timestamp = None;
    m.payload = Payload::Verbose(vec![Argument { name: None, value: Value::U128(1u128 << 127) }]);
    let attrs = dlt_message_to_event_attrs(&m);
    assert!(attrs.is_empty());
}

#[test]
fn largest_signed_128_bit_value_is_kept() {
    let mut m = plain_message();
    m.ecu_id = None;
    m.session_id = None;
    m.timestamp = None;
    m.payload =
        Payload::Verbose(vec![Argument { name: None, value: Value::U128((1u128 << 127) - 1) }]);
    let attrs = dlt_message_to_event_attrs(&m);
    assert_eq!(attrs, vec![("event.payload".to_string(), AttrVal::BigInt(i128::MAX))]);
}

#[test]
fn raw_values_are_dropped_silently() {
    let mut m = plain_message();
    m.ecu_id = None;
    m.session_id = None;
    m.timestamp = None;
    m.payload = Payload::Verbose(vec![
        Argument { name: None, value: Value::Raw(vec![1, 2, 3]) },
        Argument { name: None, value: Value::Bool(true) },
    ]);
    let attrs = dlt_message_to_event_attrs(&m);
    assert_eq!(attrs, vec![("event.payload.1".to_string(), AttrVal::Bool(true))]);
}

#[test]
fn duplicate_argument_names_keep_the_first() {
    let mut m = plain_message();
    m.ecu_id = None;
    m.session_id = None;
    m.timestamp = None;
    m.payload = Payload::Verbose(vec![
        Argument { name: Some("dup".to_string()), value: Value::I32(1) },
        Argument { name: Some("dup".to_string()), value: Value::I32(2) },
    ]);
    let attrs = dlt_message_to_event_attrs(&m);
    assert_eq!(attrs, vec![("event.payload.dup".to_string(), AttrVal::Int(1))]);
}

#[test]
fn control_payload_attrs() {
    let mut m = plain_message();
    m.ecu_id = None;
    m.session_id = None;
    m.timestamp = None;
    m.payload = Payload::Control(ControlKind::Response, vec![0x11]);
    let attrs = dlt_message_to_event_attrs(&m);
    assert_eq!(
        attrs,
        vec![
            ("event.payload_type".to_string(), AttrVal::Text("control".to_string())),
            ("event.control_direction".to_string(), AttrVal::Text("response".to_string())),
        ]
    );
}

#[test]
fn unsigned_64_bit_above_signed_range_becomes_big_int() {
    let mut m = plain_message();
    m.ecu_id = None;
    m.session_id = None;
    m.timestamp = None;
    m.payload = Payload::Verbose(vec![Argument { name: None, value: Value::U64(u64::MAX) }]);
    let attrs = dlt_message_to_event_attrs(&m);
    assert_eq!(attrs, vec![("event.payload".to_string(), AttrVal::BigInt(u64::MAX as i128))]);
}
