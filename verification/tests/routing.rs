use modality_dlt::message::{DecodedMessage, Message, Payload};
use modality_dlt::send::{MessagePlan, Sender};
use modality_dlt::CommonConfig;

fn default_config() -> CommonConfig {
    CommonConfig {
        timeline_from_ecu_id: None,
        timeline_from_session_id: None,
        timeline_from_application_id: None,
        timeline_from_context_id: None,
    }
}

fn message_with_payload(ecu: &str, payload: Payload) -> Message {
    Message {
        ecu_id: Some(ecu.to_string()),
        session_id: None,
        timestamp: None,
        extended_header: None,
        payload,
    }
}

/// Run one delivered message through the full plan/commit cycle and return
/// what the sink would have been asked to do:
/// (switched, declared name, ordering).
fn deliver(sender: &mut Sender, msg: Message) -> (bool, Option<String>, u128) {
    match sender.plan_message(&DecodedMessage::Item(msg)) {
        MessagePlan::Deliver(p) => {
            if p.switch_needed {
                sender.commit_switched(p.timeline);
            }
            let declared = match p.declaration {
                Some(d) => {
                    sender.commit_declared(p.key, p.timeline);
                    Some(d.name)
                }
                None => None,
            };
            sender.commit_event_sent();
            (p.switch_needed, declared, p.ordering)
        }
        _ => panic!("message unexpectedly skipped"),
    }
}

#[test]
fn two_message_stream_shares_one_timeline() {
    // Both messages share the ecu id and differ only in payload: one
    // switch + declare pair, then orderings 0 and 1, and no second switch.
    let mut sender = Sender::new(default_config());
    let m1 = message_with_payload("ECU1", Payload::NonVerbose(1, vec![]));
    let m2 = message_with_payload("ECU1", Payload::NonVerbose(2, vec![0xff]));

    let (switched1, declared1, ord1) = deliver(&mut sender, m1);
    assert!(switched1);
    assert_eq!(declared1, Some("ECU1".to_string()));
    assert_eq!(ord1, 0);

    let (switched2, declared2, ord2) = deliver(&mut sender, m2);
    assert!(!switched2);
    assert_eq!(declared2, None);
    assert_eq!(ord2, 1);
}

#[test]
fn first_message_declares_exactly_once() {
    let mut sender = Sender::new(default_config());
    let (sw, decl, _) = deliver(&mut sender, message_with_payload("A", Payload::Verbose(vec![])));
    assert!(sw);
    assert!(decl.is_some());
    for _ in 0..3 {
        let (sw, decl, _) =
            deliver(&mut sender, message_with_payload("A", Payload::Verbose(vec![])));
        assert!(!sw);
        assert!(decl.is_none());
    }
}

#[test]
fn switching_back_to_a_known_timeline_declares_nothing() {
    let mut sender = Sender::new(default_config());
    let (_, decl_a, _) = deliver(&mut sender, message_with_payload("A", Payload::Verbose(vec![])));
    assert!(decl_a.is_some());
    let (sw_b, decl_b, _) = deliver(&mut sender, message_with_payload("B", Payload::Verbose(vec![])));
    assert!(sw_b);
    assert!(decl_b.is_some());
    // Back to A: a switch is needed again, but no declaration.
    let (sw_a, decl_a2, _) = deliver(&mut sender, message_with_payload("A", Payload::Verbose(vec![])));
    assert!(sw_a);
    assert!(decl_a2.is_none());
}

#[test]
fn distinct_keys_get_distinct_timelines() {
    let mut sender = Sender::new(default_config());
    let p1 = sender.plan_message(&DecodedMessage::Item(message_with_payload(
        "A",
        Payload::Verbose(vec![]),
    )));
    let t1 = match p1 {
        MessagePlan::Deliver(p) => {
            sender.commit_switched(p.timeline);
            sender.commit_declared(p.key, p.timeline);
            sender.commit_event_sent();
            p.timeline
        }
        _ => panic!("skipped"),
    };
    let p2 = sender.plan_message(&DecodedMessage::Item(message_with_payload(
        "B",
        Payload::Verbose(vec![]),
    )));
    match p2 {
        MessagePlan::Deliver(p) => assert_ne!(p.timeline, t1),
        _ => panic!("skipped"),
    }
}

#[test]
fn skipped_messages_consume_no_ordering_number() {
    let mut sender = Sender::new(default_config());
    let (_, _, ord0) = deliver(&mut sender, message_with_payload("A", Payload::Verbose(vec![])));
    assert_eq!(ord0, 0);

    // Invalid and filtered messages are skipped and leave the counter alone.
    assert!(matches!(
        sender.plan_message(&DecodedMessage::Invalid),
        MessagePlan::SkipInvalid
    ));
    assert!(matches!(
        sender.plan_message(&DecodedMessage::FilteredOut),
        MessagePlan::SkipFiltered
    ));

    let (_, _, ord1) = deliver(&mut sender, message_with_payload("A", Payload::Verbose(vec![])));
    assert_eq!(ord1, 1);
    let (_, _, ord2) = deliver(&mut sender, message_with_payload("A", Payload::Verbose(vec![])));
    assert_eq!(ord2, 2);
}

#[test]
fn event_payload_of_plan_matches_converter() {
    let mut sender = Sender::new(default_config());
    let msg = message_with_payload("ECU1", Payload::NonVerbose(5, vec![]));
    match sender.plan_message(&DecodedMessage::Item(msg.clone())) {
        MessagePlan::Deliver(p) => {
            assert_eq!(p.event_name, modality_dlt::convert::dlt_message_to_event_name(&msg));
            assert_eq!(p.event_attrs, modality_dlt::convert::dlt_message_to_event_attrs(&msg));
            sender.commit_switched(p.timeline);
            sender.commit_declared(p.key, p.timeline);
            sender.commit_event_sent();
        }
        _ => panic!("skipped"),
    }
}
