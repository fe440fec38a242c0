//! Translation of raw bus notifications into typed events.
//!
//! A change notification arrives as a bag of named property values.  The
//! translator looks up the keys it knows, decodes each one it finds, and
//! treats a key whose value cannot be decoded as if it were absent: a single
//! malformed notification must never terminate the stream, it is merely
//! dropped (the caller may log it).  A notification in which no expected key
//! is present yields no event at all.

use vstd::prelude::*;

use crate::types::{str_is, Node, Startup};

verus! {

/// One property value as it comes off the bus, already reduced to the plain
/// shapes this service reads.  Anything else arrives as `Unsupported` and is
/// treated as undecodable.
#[derive(Debug, Clone)]
pub enum RawValue {
    Text(String),
    Flag(bool),
    Number(u64),
    Unsupported,
}

/// One changed property: its name and its new value.
#[derive(Debug, Clone)]
pub struct RawProperty {
    pub key: String,
    pub value: RawValue,
}

/// A raw change record: the changed properties of one object, in the order
/// the bus listed them.
#[derive(Debug, Clone)]
pub struct RawChange {
    pub properties: Vec<RawProperty>,
}

/// A typed domain event, as the aggregated stream delivers it.  An event
/// carries only what actually changed: the optional fields of
/// `InitiatorChanged` are populated only for properties present in the
/// underlying notification.
#[derive(Debug, Clone)]
pub enum Event {
    NodeAdded(Node),
    NodeRemoved(u32),
    NodeUpdated(Node),
    InitiatorChanged { name: Option<String>, ibft: Option<bool> },
}

/// A raw signal from the node-collection watcher: an object appeared,
/// disappeared, or changed, identified by the node id encoded in its path.
#[derive(Debug, Clone)]
pub enum RawNodeSignal {
    Added { id: u32, properties: RawChange },
    Removed { id: u32 },
    Changed { id: u32, properties: RawChange },
}

/// The value of the first property named `key`, if any.
pub open spec fn spec_lookup(props: Seq<RawProperty>, key: Seq<char>) -> Option<RawValue>
    decreases props.len(),
{
    if props.len() == 0 {
        None
    } else if props[0].key@ == key {
        Some(props[0].value)
    } else {
        spec_lookup(props.drop_first(), key)
    }
}

/// The text value under `key`; a missing key and a non-text value look alike:
/// absent.
pub open spec fn spec_text_property(props: Seq<RawProperty>, key: Seq<char>) -> Option<String> {
    match spec_lookup(props, key) {
        Some(RawValue::Text(s)) => Some(s),
        _ => None,
    }
}

/// The boolean value under `key`, with undecodable values treated as absent.
pub open spec fn spec_flag_property(props: Seq<RawProperty>, key: Seq<char>) -> Option<bool> {
    match spec_lookup(props, key) {
        Some(RawValue::Flag(b)) => Some(b),
        _ => None,
    }
}

/// The numeric value under `key` narrowed to a port-sized integer; a value
/// that does not fit is undecodable and counts as absent.
pub open spec fn spec_port_property(props: Seq<RawProperty>, key: Seq<char>) -> Option<u32> {
    match spec_lookup(props, key) {
        Some(RawValue::Number(n)) => if n <= u32::MAX as u64 {
            Some(n as u32)
        } else {
            None
        },
        _ => None,
    }
}

/// The startup policy under `key`; text that is not a known policy label is
/// undecodable and counts as absent.
pub open spec fn spec_startup_property(props: Seq<RawProperty>, key: Seq<char>) -> Option<
    Startup,
> {
    match spec_text_property(props, key) {
        Some(s) => Startup::spec_parse(s@),
        None => None,
    }
}

/// What an initiator change record translates to: the new name and firmware
/// flag where present, and no event at all when neither expected key is.
pub open spec fn spec_initiator_event(props: Seq<RawProperty>) -> Option<Event> {
    let name = spec_text_property(props, "InitiatorName"@);
    let ibft = spec_flag_property(props, "IBFT"@);
    if name is None && ibft is None {
        None
    } else {
        Some(Event::InitiatorChanged { name, ibft })
    }
}

/// The node a property record describes, if every field of one can be
/// decoded; otherwise nothing, and the record is dropped.
pub open spec fn spec_node_from_properties(id: u32, props: Seq<RawProperty>) -> Option<Node> {
    let address = spec_text_property(props, "Address"@);
    let target = spec_text_property(props, "Target"@);
    let port = spec_port_property(props, "Port"@);
    let startup = spec_startup_property(props, "Startup"@);
    let connected = spec_flag_property(props, "Connected"@);
    match (address, target, port, startup, connected) {
        (Some(a), Some(t), Some(p), Some(s), Some(c)) => Some(
            Node { id, address: a, port: p, target: t, startup: s, connected: c },
        ),
        _ => None,
    }
}

/// What a node-collection signal translates to: removals always become
/// events, additions and updates only when a whole node can be decoded.
pub open spec fn spec_node_event(sig: RawNodeSignal) -> Option<Event> {
    match sig {
        RawNodeSignal::Added { id, properties } => match spec_node_from_properties(
            id,
            properties.properties@,
        ) {
            Some(n) => Some(Event::NodeAdded(n)),
            None => None,
        },
        RawNodeSignal::Removed { id } => Some(Event::NodeRemoved(id)),
        RawNodeSignal::Changed { id, properties } => match spec_node_from_properties(
            id,
            properties.properties@,
        ) {
            Some(n) => Some(Event::NodeUpdated(n)),
            None => None,
        },
    }
}

proof fn lemma_lookup_at(props: Seq<RawProperty>, key: Seq<char>, i: int)
    requires
        0 <= i < props.len(),
        forall|j: int| 0 <= j < i ==> props[j].key@ != key,
        props[i].key@ == key,
    ensures
        spec_lookup(props, key) == Some(props[i].value),
    decreases i,
{
    if i > 0 {
        assert(props[0].key@ != key);
        let rest = props.drop_first();
        assert(rest[i - 1] == props[i]);
        assert(forall|j: int| 0 <= j < i - 1 ==> rest[j] == props[j + 1]);
        lemma_lookup_at(rest, key, i - 1);
    }
}

proof fn lemma_lookup_absent(props: Seq<RawProperty>, key: Seq<char>)
    requires
        forall|j: int| 0 <= j < props.len() ==> props[j].key@ != key,
    ensures
        spec_lookup(props, key) is None,
    decreases props.len(),
{
    if props.len() > 0 {
        let rest = props.drop_first();
        assert(forall|j: int| 0 <= j < rest.len() ==> rest[j] == props[j + 1]);
        lemma_lookup_absent(rest, key);
    }
}

/// Finds the first property named `key`.
fn find_property<'a>(props: &'a Vec<RawProperty>, key: &str) -> (r: Option<&'a RawValue>)
    ensures
        match r {
            Some(v) => spec_lookup(props@, key@) == Some(*v),
            None => spec_lookup(props@, key@) is None,
        },
{
    let mut i: usize = 0;
    while i < props.len()
        invariant
            i <= props@.len(),
            forall|j: int| 0 <= j < i ==> props@[j].key@ != key@,
        decreases props@.len() - i,
    {
        if str_is(&props[i].key, key) {
            proof {
                lemma_lookup_at(props@, key@, i as int);
            }
            return Some(&props[i].value);
        }
        i += 1;
    }
    proof {
        lemma_lookup_absent(props@, key@);
    }
    None
}

/// Decodes the text property under `key`, treating anything else as absent.
fn text_property(props: &Vec<RawProperty>, key: &str) -> (r: Option<String>)
    ensures
        r == spec_text_property(props@, key@),
{
    match find_property(props, key) {
        Some(v) => match v {
            RawValue::Text(s) => Some(s.clone()),
            _ => None,
        },
        None => None,
    }
}

/// Decodes the boolean property under `key`, treating anything else as
/// absent.
fn flag_property(props: &Vec<RawProperty>, key: &str) -> (r: Option<bool>)
    ensures
        r == spec_flag_property(props@, key@),
{
    match find_property(props, key) {
        Some(v) => match v {
            RawValue::Flag(b) => Some(*b),
            _ => None,
        },
        None => None,
    }
}

/// Decodes the port-sized numeric property under `key`, treating an
/// out-of-range number like any other undecodable value: as absent.
fn port_property(props: &Vec<RawProperty>, key: &str) -> (r: Option<u32>)
    ensures
        r == spec_port_property(props@, key@),
{
    match find_property(props, key) {
        Some(v) => match v {
            RawValue::Number(n) => if *n <= u32::MAX as u64 {
                Some(*n as u32)
            } else {
                None
            },
            _ => None,
        },
        None => None,
    }
}

/// Decodes the startup-policy property under `key`, treating an unknown
/// label as absent.
fn startup_property(props: &Vec<RawProperty>, key: &str) -> (r: Option<Startup>)
    ensures
        r == spec_startup_property(props@, key@),
{
    match text_property(props, key) {
        Some(s) => Startup::parse(&s),
        None => None,
    }
}

/// Translates an initiator property change into an event, or into nothing
/// when no expected key is present.  A key whose value cannot be decoded is
/// treated as absent rather than failing the record.
pub fn handle_initiator_change(change: &RawChange) -> (r: Option<Event>)
    ensures
        r == spec_initiator_event(change.properties@),
{
    let name = text_property(&change.properties, "InitiatorName");
    let ibft = flag_property(&change.properties, "IBFT");
    if name.is_none() && ibft.is_none() {
        None
    } else {
        Some(Event::InitiatorChanged { name, ibft })
    }
}

/// Decodes a whole node from a property record; any missing or undecodable
/// field drops the record.
pub fn node_from_properties(id: u32, props: &Vec<RawProperty>) -> (r: Option<Node>)
    ensures
        r == spec_node_from_properties(id, props@),
{
    let address = text_property(props, "Address");
    let target = text_property(props, "Target");
    let port = port_property(props, "Port");
    let startup = startup_property(props, "Startup");
    let connected = flag_property(props, "Connected");
    match (address, target, port, startup, connected) {
        (Some(a), Some(t), Some(p), Some(s), Some(c)) => Some(
            Node { id, address: a, port: p, target: t, startup: s, connected: c },
        ),
        _ => None,
    }
}

/// Translates a node-collection signal into an event: removals always,
/// additions and updates only when the record decodes to a whole node.
pub fn handle_node_change(sig: &RawNodeSignal) -> (r: Option<Event>)
    ensures
        r == spec_node_event(*sig),
{
    match sig {
        RawNodeSignal::Added { id, properties } => match node_from_properties(
            *id,
            &properties.properties,
        ) {
            Some(n) => Some(Event::NodeAdded(n)),
            None => None,
        },
        RawNodeSignal::Removed { id } => Some(Event::NodeRemoved(*id)),
        RawNodeSignal::Changed { id, properties } => match node_from_properties(
            *id,
            &properties.properties,
        ) {
            Some(n) => Some(Event::NodeUpdated(n)),
            None => None,
        },
    }
}

} // verus!
