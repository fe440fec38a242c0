//! Tests of the event-stream path: translation of raw change records and
//! fan-in aggregation of several sources.

use iscsi_web::aggregator::{Aggregator, LabeledEvent, SourceSignal};
use iscsi_web::event::{
    handle_initiator_change, handle_node_change, Event, RawChange, RawNodeSignal, RawProperty,
    RawValue,
};
use iscsi_web::types::{ServiceError, Startup};

fn prop(key: &str, value: RawValue) -> RawProperty {
    RawProperty {
        key: key.to_string(),
        value,
    }
}

#[test]
fn unrecognized_key_yields_nothing() {
    let change = RawChange {
        properties: vec![prop("Color", RawValue::Text("blue".to_string()))],
    };
    assert!(handle_initiator_change(&change).is_none());
}

#[test]
fn initiator_name_yields_name_only_event() {
    let change = RawChange {
        properties: vec![prop("InitiatorName", RawValue::Text("x".to_string()))],
    };
    match handle_initiator_change(&change) {
        Some(Event::InitiatorChanged { name, ibft }) => {
            assert_eq!(name.as_deref(), Some("x"));
            assert!(ibft.is_none());
        }
        other => panic!("unexpected translation: {:?}", other),
    }
}

#[test]
fn initiator_change_carries_both_fields_when_present() {
    let change = RawChange {
        properties: vec![
            prop("IBFT", RawValue::Flag(true)),
            prop("InitiatorName", RawValue::Text("iqn.test:a".to_string())),
        ],
    };
    match handle_initiator_change(&change) {
        Some(Event::InitiatorChanged { name, ibft }) => {
            assert_eq!(name.as_deref(), Some("iqn.test:a"));
            assert_eq!(ibft, Some(true));
        }
        other => panic!("unexpected translation: {:?}", other),
    }
}

#[test]
fn undecodable_key_is_treated_as_absent() {
    // The name is present but carries a non-text value: only the firmware
    // flag survives, and the record still yields an event.
    let change = RawChange {
        properties: vec![
            prop("InitiatorName", RawValue::Flag(false)),
            prop("IBFT", RawValue::Flag(false)),
        ],
    };
    match handle_initiator_change(&change) {
        Some(Event::InitiatorChanged { name, ibft }) => {
            assert!(name.is_none());
            assert_eq!(ibft, Some(false));
        }
        other => panic!("unexpected translation: {:?}", other),
    }
}

fn whole_node_record() -> RawChange {
    RawChange {
        properties: vec![
            prop("Address", RawValue::Text("192.168.1.10".to_string())),
            prop("Port", RawValue::Number(3260)),
            prop("Target", RawValue::Text("iqn.test:target".to_string())),
            prop("Startup", RawValue::Text("manual".to_string())),
            prop("Connected", RawValue::Flag(true)),
        ],
    }
}

#[test]
fn node_addition_decodes_every_field() {
    let sig = RawNodeSignal::Added {
        id: 7,
        properties: whole_node_record(),
    };
    match handle_node_change(&sig) {
        Some(Event::NodeAdded(n)) => {
            assert_eq!(n.id, 7);
            assert_eq!(n.address, "192.168.1.10");
            assert_eq!(n.port, 3260);
            assert_eq!(n.target, "iqn.test:target");
            assert_eq!(n.startup, Startup::Manual);
            assert!(n.connected);
        }
        other => panic!("unexpected translation: {:?}", other),
    }
}

#[test]
fn node_record_with_missing_field_is_dropped() {
    let mut record = whole_node_record();
    record.properties.retain(|p| p.key != "Target");
    let sig = RawNodeSignal::Changed {
        id: 7,
        properties: record,
    };
    assert!(handle_node_change(&sig).is_none());
}

#[test]
fn node_record_with_oversized_port_is_dropped() {
    let mut record = whole_node_record();
    for p in record.properties.iter_mut() {
        if p.key == "Port" {
            p.value = RawValue::Number(u32::MAX as u64 + 1);
        }
    }
    let sig = RawNodeSignal::Added {
        id: 7,
        properties: record,
    };
    assert!(handle_node_change(&sig).is_none());
}

#[test]
fn node_record_with_unknown_startup_is_dropped() {
    let mut record = whole_node_record();
    for p in record.properties.iter_mut() {
        if p.key == "Startup" {
            p.value = RawValue::Text("sometimes".to_string());
        }
    }
    let sig = RawNodeSignal::Added {
        id: 7,
        properties: record,
    };
    assert!(handle_node_change(&sig).is_none());
}

#[test]
fn node_removal_always_translates() {
    let sig = RawNodeSignal::Removed { id: 42 };
    match handle_node_change(&sig) {
        Some(Event::NodeRemoved(id)) => assert_eq!(id, 42),
        other => panic!("unexpected translation: {:?}", other),
    }
}

fn two_source_aggregator() -> Aggregator {
    let setups = vec![
        Ok("iscsi_nodes".to_string()),
        Ok("initiator".to_string()),
    ];
    Aggregator::new(&setups).expect("both subscriptions started")
}

#[test]
fn item_is_forwarded_at_once_while_other_source_is_idle() {
    // The second source never produces anything; an event from the first
    // still comes out immediately, under the first source's label.
    let mut agg = two_source_aggregator();
    let out = agg.step(SourceSignal::Item {
        source: 0,
        event: Event::NodeRemoved(5),
    });
    match out {
        Some(LabeledEvent { source, event }) => {
            assert_eq!(source, "iscsi_nodes");
            assert!(matches!(event, Event::NodeRemoved(5)));
        }
        None => panic!("the event was not forwarded"),
    }
}

#[test]
fn item_is_forwarded_even_after_other_source_ended() {
    let mut agg = two_source_aggregator();
    assert!(agg.step(SourceSignal::End { source: 0 }).is_none());
    let out = agg.step(SourceSignal::Item {
        source: 1,
        event: Event::InitiatorChanged {
            name: Some("iqn.test:a".to_string()),
            ibft: None,
        },
    });
    match out {
        Some(LabeledEvent { source, .. }) => assert_eq!(source, "initiator"),
        None => panic!("the event was not forwarded"),
    }
}

#[test]
fn aggregation_terminates_only_when_every_source_ended() {
    let mut agg = two_source_aggregator();
    assert!(!agg.is_terminated());
    agg.step(SourceSignal::Item {
        source: 0,
        event: Event::NodeRemoved(1),
    });
    assert!(!agg.is_terminated());
    agg.step(SourceSignal::End { source: 0 });
    assert!(!agg.is_terminated());
    agg.step(SourceSignal::End { source: 1 });
    assert!(agg.is_terminated());
}

#[test]
fn failed_subscription_fails_the_whole_construction() {
    let setups = vec![
        Ok("iscsi_nodes".to_string()),
        Err(ServiceError::Bus("disconnected".to_string())),
    ];
    match Aggregator::new(&setups) {
        Err(ServiceError::Bus(msg)) => assert_eq!(msg, "disconnected"),
        other => panic!("construction did not fail: {:?}", other),
    }
}

#[test]
fn empty_source_list_builds_a_terminated_stream() {
    let agg = Aggregator::new(&Vec::new()).expect("nothing to subscribe");
    assert!(agg.is_terminated());
}
