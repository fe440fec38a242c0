//! The resource client's computing half: input validation and the
//! interpretation of bus replies as typed domain results.
//!
//! Each domain operation is one request/response round trip over the bus.
//! The transport itself lives outside this library; what stands here is the
//! rule every operation shares: a transport failure or a reply of the wrong
//! shape is always an error, while a domain-level refusal (a rejected
//! discovery, a failed login, a refused logout) is always a typed value.

use vstd::prelude::*;

use crate::types::{Initiator, LoginOutcome, Node, ServiceError};

verus! {

/// A bus reply, already reduced to the plain shapes the operations of this
/// service can receive.  Each operation accepts exactly one of them.
#[derive(Debug, Clone)]
pub enum BusReply {
    /// A bare acknowledgement, carrying nothing.
    Ack,
    /// The initiator's properties.
    InitiatorReply { name: String, ibft: bool },
    /// The list of currently-known nodes.
    NodesReply(Vec<Node>),
    /// A yes/no answer.
    FlagReply(bool),
    /// A numeric outcome code.
    CodeReply(u32),
}

/// Whether a name may be sent as the new initiator name: it must not be
/// empty.
pub open spec fn spec_valid_initiator_name(name: Seq<char>) -> bool {
    name.len() > 0
}

/// Whether an address and port may be sent to discovery: a non-empty
/// address and a port that fits in sixteen bits.
pub open spec fn spec_valid_discover_input(address: Seq<char>, port: u32) -> bool {
    address.len() > 0 && port <= 65535
}

/// Checks a prospective initiator name.
pub fn valid_initiator_name(name: &String) -> (r: bool)
    ensures
        r == spec_valid_initiator_name(name@),
{
    name.as_str().unicode_len() > 0
}

/// Checks a prospective discovery request.
pub fn valid_discover_input(address: &String, port: u32) -> (r: bool)
    ensures
        r == spec_valid_discover_input(address@, port),
{
    address.as_str().unicode_len() > 0 && port <= 65535
}

/// What interpreting a get-initiator reply yields.
pub open spec fn spec_get_initiator(reply: Result<BusReply, ServiceError>) -> Result<
    Initiator,
    ServiceError,
> {
    match reply {
        Ok(BusReply::InitiatorReply { name, ibft }) => Ok(Initiator { name, ibft }),
        Ok(_) => Err(ServiceError::UnexpectedReply),
        Err(e) => Err(e),
    }
}

/// Interprets the reply of the get-initiator round trip.
pub fn get_initiator(reply: Result<BusReply, ServiceError>) -> (r: Result<
    Initiator,
    ServiceError,
>)
    ensures
        r == spec_get_initiator(reply),
{
    match reply {
        Ok(BusReply::InitiatorReply { name, ibft }) => Ok(Initiator { name, ibft }),
        Ok(_) => Err(ServiceError::UnexpectedReply),
        Err(e) => Err(e),
    }
}

/// What interpreting a set-initiator-name reply yields.
pub open spec fn spec_set_initiator_name(reply: Result<BusReply, ServiceError>) -> Result<
    (),
    ServiceError,
> {
    match reply {
        Ok(BusReply::Ack) => Ok(()),
        Ok(_) => Err(ServiceError::UnexpectedReply),
        Err(e) => Err(e),
    }
}

/// Interprets the reply of the set-initiator-name round trip.
pub fn set_initiator_name(reply: Result<BusReply, ServiceError>) -> (r: Result<(), ServiceError>)
    ensures
        r == spec_set_initiator_name(reply),
{
    match reply {
        Ok(BusReply::Ack) => Ok(()),
        Ok(_) => Err(ServiceError::UnexpectedReply),
        Err(e) => Err(e),
    }
}

/// What interpreting a get-nodes reply yields.
pub open spec fn spec_get_nodes(reply: Result<BusReply, ServiceError>) -> Result<
    Vec<Node>,
    ServiceError,
> {
    match reply {
        Ok(BusReply::NodesReply(nodes)) => Ok(nodes),
        Ok(_) => Err(ServiceError::UnexpectedReply),
        Err(e) => Err(e),
    }
}

/// Interprets the reply of the get-nodes round trip.
pub fn get_nodes(reply: Result<BusReply, ServiceError>) -> (r: Result<Vec<Node>, ServiceError>)
    ensures
        r == spec_get_nodes(reply),
{
    match reply {
        Ok(BusReply::NodesReply(nodes)) => Ok(nodes),
        Ok(_) => Err(ServiceError::UnexpectedReply),
        Err(e) => Err(e),
    }
}

/// What interpreting a discovery reply yields: `true` for accepted, `false`
/// for a domain-level rejection, never an error for either.
pub open spec fn spec_discover(reply: Result<BusReply, ServiceError>) -> Result<
    bool,
    ServiceError,
> {
    match reply {
        Ok(BusReply::FlagReply(accepted)) => Ok(accepted),
        Ok(_) => Err(ServiceError::UnexpectedReply),
        Err(e) => Err(e),
    }
}

/// Interprets the reply of the discovery round trip.
pub fn discover(reply: Result<BusReply, ServiceError>) -> (r: Result<bool, ServiceError>)
    ensures
        r == spec_discover(reply),
{
    match reply {
        Ok(BusReply::FlagReply(accepted)) => Ok(accepted),
        Ok(_) => Err(ServiceError::UnexpectedReply),
        Err(e) => Err(e),
    }
}

/// What interpreting a set-startup reply yields.
pub open spec fn spec_set_startup(reply: Result<BusReply, ServiceError>) -> Result<
    (),
    ServiceError,
> {
    match reply {
        Ok(BusReply::Ack) => Ok(()),
        Ok(_) => Err(ServiceError::UnexpectedReply),
        Err(e) => Err(e),
    }
}

/// Interprets the reply of the set-startup round trip.  A startup change on
/// an id the service does not know comes back as a bus error, and so stays a
/// transport-level failure here.
pub fn set_startup(reply: Result<BusReply, ServiceError>) -> (r: Result<(), ServiceError>)
    ensures
        r == spec_set_startup(reply),
{
    match reply {
        Ok(BusReply::Ack) => Ok(()),
        Ok(_) => Err(ServiceError::UnexpectedReply),
        Err(e) => Err(e),
    }
}

/// What interpreting a delete-node reply yields.
pub open spec fn spec_delete_node(reply: Result<BusReply, ServiceError>) -> Result<
    (),
    ServiceError,
> {
    match reply {
        Ok(BusReply::Ack) => Ok(()),
        Ok(_) => Err(ServiceError::UnexpectedReply),
        Err(e) => Err(e),
    }
}

/// Interprets the reply of the delete-node round trip.
pub fn delete_node(reply: Result<BusReply, ServiceError>) -> (r: Result<(), ServiceError>)
    ensures
        r == spec_delete_node(reply),
{
    match reply {
        Ok(BusReply::Ack) => Ok(()),
        Ok(_) => Err(ServiceError::UnexpectedReply),
        Err(e) => Err(e),
    }
}

/// What interpreting a login reply yields: every defined outcome code becomes
/// its typed outcome, an undefined code is a malformed reply.
pub open spec fn spec_login(reply: Result<BusReply, ServiceError>) -> Result<
    LoginOutcome,
    ServiceError,
> {
    match reply {
        Ok(BusReply::CodeReply(code)) => match LoginOutcome::spec_from_code(code) {
            Some(outcome) => Ok(outcome),
            None => Err(ServiceError::UnexpectedReply),
        },
        Ok(_) => Err(ServiceError::UnexpectedReply),
        Err(e) => Err(e),
    }
}

/// Interprets the reply of the login round trip.  Domain-level refusals come
/// out as [`LoginOutcome`] values; only the transport, or a reply outside the
/// protocol, makes an error.
pub fn login(reply: Result<BusReply, ServiceError>) -> (r: Result<LoginOutcome, ServiceError>)
    ensures
        r == spec_login(reply),
{
    match reply {
        Ok(BusReply::CodeReply(code)) => match LoginOutcome::from_code(code) {
            Some(outcome) => Ok(outcome),
            None => Err(ServiceError::UnexpectedReply),
        },
        Ok(_) => Err(ServiceError::UnexpectedReply),
        Err(e) => Err(e),
    }
}

/// What interpreting a logout reply yields: `true` for done, `false` for a
/// refused logout, never an error for either.
pub open spec fn spec_logout(reply: Result<BusReply, ServiceError>) -> Result<
    bool,
    ServiceError,
> {
    match reply {
        Ok(BusReply::FlagReply(done)) => Ok(done),
        Ok(_) => Err(ServiceError::UnexpectedReply),
        Err(e) => Err(e),
    }
}

/// Interprets the reply of the logout round trip.
pub fn logout(reply: Result<BusReply, ServiceError>) -> (r: Result<bool, ServiceError>)
    ensures
        r == spec_logout(reply),
{
    match reply {
        Ok(BusReply::FlagReply(done)) => Ok(done),
        Ok(_) => Err(ServiceError::UnexpectedReply),
        Err(e) => Err(e),
    }
}

} // verus!
