//! The HTTP-facing proxy: one mapping per route from a typed domain result
//! to an HTTP status and body.
//!
//! Each handler here is the deciding half of one route.  The surrounding
//! binary performs the bus round trip, interprets the reply through
//! [`crate::client`], and hands the typed result in; the handler says
//! exactly which status and body go out.  A transport error is never
//! swallowed into one of the route's own statuses: it is passed back out
//! for the server's generic error mapping.

use vstd::prelude::*;

use crate::types::{Initiator, LoginOutcome, Node, ServiceError};

verus! {

pub const STATUS_OK: u16 = 200;

pub const STATUS_NO_CONTENT: u16 = 204;

pub const STATUS_BAD_REQUEST: u16 = 400;

pub const STATUS_UNPROCESSABLE: u16 = 422;

/// The body of a response: nothing, a domain entity, or the outcome code of
/// a refused login.
#[derive(Debug, Clone)]
pub enum Body {
    Empty,
    InitiatorBody(Initiator),
    NodesBody(Vec<Node>),
    CodeBody(LoginOutcome),
}

/// An HTTP response as this layer determines it: a status and a body.
#[derive(Debug, Clone)]
pub struct Response {
    pub status: u16,
    pub body: Body,
}

/// What the initiator route answers: the entity with 200, or the transport
/// error unchanged.
pub open spec fn spec_initiator(result: Result<Initiator, ServiceError>) -> Result<
    Response,
    ServiceError,
> {
    match result {
        Ok(i) => Ok(Response { status: STATUS_OK, body: Body::InitiatorBody(i) }),
        Err(e) => Err(e),
    }
}

/// Maps the result of reading the initiator onto the response of
/// `GET /initiator`.
pub fn initiator(result: Result<Initiator, ServiceError>) -> (r: Result<Response, ServiceError>)
    ensures
        r == spec_initiator(result),
{
    match result {
        Ok(i) => Ok(Response { status: STATUS_OK, body: Body::InitiatorBody(i) }),
        Err(e) => Err(e),
    }
}

/// What the initiator-update route answers: a bare 204, or the transport
/// error unchanged.
pub open spec fn spec_update_initiator(result: Result<(), ServiceError>) -> Result<
    Response,
    ServiceError,
> {
    match result {
        Ok(_) => Ok(Response { status: STATUS_NO_CONTENT, body: Body::Empty }),
        Err(e) => Err(e),
    }
}

/// Maps the result of renaming the initiator onto the response of
/// `PATCH /initiator`.
pub fn update_initiator(result: Result<(), ServiceError>) -> (r: Result<Response, ServiceError>)
    ensures
        r == spec_update_initiator(result),
{
    match result {
        Ok(_) => Ok(Response { status: STATUS_NO_CONTENT, body: Body::Empty }),
        Err(e) => Err(e),
    }
}

/// What the node-listing route answers: the list with 200, or the transport
/// error unchanged.
pub open spec fn spec_nodes(result: Result<Vec<Node>, ServiceError>) -> Result<
    Response,
    ServiceError,
> {
    match result {
        Ok(ns) => Ok(Response { status: STATUS_OK, body: Body::NodesBody(ns) }),
        Err(e) => Err(e),
    }
}

/// Maps the result of listing the nodes onto the response of `GET /nodes`.
pub fn nodes(result: Result<Vec<Node>, ServiceError>) -> (r: Result<Response, ServiceError>)
    ensures
        r == spec_nodes(result),
{
    match result {
        Ok(ns) => Ok(Response { status: STATUS_OK, body: Body::NodesBody(ns) }),
        Err(e) => Err(e),
    }
}

/// What the discovery route answers: 204 for an accepted discovery, 400 for
/// a rejected one, the transport error unchanged otherwise.
pub open spec fn spec_discover(result: Result<bool, ServiceError>) -> Result<
    Response,
    ServiceError,
> {
    match result {
        Ok(accepted) => if accepted {
            Ok(Response { status: STATUS_NO_CONTENT, body: Body::Empty })
        } else {
            Ok(Response { status: STATUS_BAD_REQUEST, body: Body::Empty })
        },
        Err(e) => Err(e),
    }
}

/// Maps the result of a discovery onto the response of `POST /discover`:
/// an accepted discovery answers 204 and a rejected one 400, whatever
/// address and port the request carried.
pub fn discover(result: Result<bool, ServiceError>) -> (r: Result<Response, ServiceError>)
    ensures
        r == spec_discover(result),
        result == Ok::<bool, ServiceError>(true) ==> r == Ok::<Response, ServiceError>(
            Response { status: STATUS_NO_CONTENT, body: Body::Empty },
        ),
        result == Ok::<bool, ServiceError>(false) ==> r == Ok::<Response, ServiceError>(
            Response { status: STATUS_BAD_REQUEST, body: Body::Empty },
        ),
{
    match result {
        Ok(accepted) => if accepted {
            Ok(Response { status: STATUS_NO_CONTENT, body: Body::Empty })
        } else {
            Ok(Response { status: STATUS_BAD_REQUEST, body: Body::Empty })
        },
        Err(e) => Err(e),
    }
}

/// What the node-update route answers: a bare 204, or the transport error
/// unchanged.
pub open spec fn spec_update_node(result: Result<(), ServiceError>) -> Result<
    Response,
    ServiceError,
> {
    match result {
        Ok(_) => Ok(Response { status: STATUS_NO_CONTENT, body: Body::Empty }),
        Err(e) => Err(e),
    }
}

/// Maps the result of a startup change onto the response of
/// `PATCH /nodes/{id}`.
pub fn update_node(result: Result<(), ServiceError>) -> (r: Result<Response, ServiceError>)
    ensures
        r == spec_update_node(result),
{
    match result {
        Ok(_) => Ok(Response { status: STATUS_NO_CONTENT, body: Body::Empty }),
        Err(e) => Err(e),
    }
}

/// What the node-deletion route answers: a bare 204, or the transport error
/// unchanged — a failed bus call never turns into a 204.
pub open spec fn spec_delete_node(result: Result<(), ServiceError>) -> Result<
    Response,
    ServiceError,
> {
    match result {
        Ok(_) => Ok(Response { status: STATUS_NO_CONTENT, body: Body::Empty }),
        Err(e) => Err(e),
    }
}

/// Maps the result of a node deletion onto the response of
/// `DELETE /nodes/{id}`.
pub fn delete_node(result: Result<(), ServiceError>) -> (r: Result<Response, ServiceError>)
    ensures
        r == spec_delete_node(result),
        result matches Err(e) ==> r == Err::<Response, ServiceError>(e),
{
    match result {
        Ok(_) => Ok(Response { status: STATUS_NO_CONTENT, body: Body::Empty }),
        Err(e) => Err(e),
    }
}

/// What the login route answers: an empty 204 for success, and for every
/// other outcome a 422 whose body carries exactly that outcome as its code.
pub open spec fn spec_login_node(result: Result<LoginOutcome, ServiceError>) -> Result<
    Response,
    ServiceError,
> {
    match result {
        Ok(LoginOutcome::Success) => Ok(Response { status: STATUS_NO_CONTENT, body: Body::Empty }),
        Ok(outcome) => Ok(Response { status: STATUS_UNPROCESSABLE, body: Body::CodeBody(outcome) }),
        Err(e) => Err(e),
    }
}

/// Maps a login outcome onto the response of `POST /nodes/{id}/login`:
/// success answers an empty 204, every other outcome a 422 carrying that
/// very outcome as its code.
pub fn login_node(result: Result<LoginOutcome, ServiceError>) -> (r: Result<
    Response,
    ServiceError,
>)
    ensures
        r == spec_login_node(result),
        result == Ok::<LoginOutcome, ServiceError>(LoginOutcome::Success) ==> r == Ok::<
            Response,
            ServiceError,
        >(Response { status: STATUS_NO_CONTENT, body: Body::Empty }),
        result matches Ok(outcome) ==> (outcome != LoginOutcome::Success ==> r == Ok::<
            Response,
            ServiceError,
        >(Response { status: STATUS_UNPROCESSABLE, body: Body::CodeBody(outcome) })),
{
    match result {
        Ok(LoginOutcome::Success) => Ok(Response { status: STATUS_NO_CONTENT, body: Body::Empty }),
        Ok(outcome) => Ok(Response { status: STATUS_UNPROCESSABLE, body: Body::CodeBody(outcome) }),
        Err(e) => Err(e),
    }
}

/// What the logout route answers: 204 when the logout went through, 422 when
/// the service refused it, the transport error unchanged otherwise.
pub open spec fn spec_logout_node(result: Result<bool, ServiceError>) -> Result<
    Response,
    ServiceError,
> {
    match result {
        Ok(done) => if done {
            Ok(Response { status: STATUS_NO_CONTENT, body: Body::Empty })
        } else {
            Ok(Response { status: STATUS_UNPROCESSABLE, body: Body::Empty })
        },
        Err(e) => Err(e),
    }
}

/// Maps the result of a logout onto the response of
/// `POST /nodes/{id}/logout`.
pub fn logout_node(result: Result<bool, ServiceError>) -> (r: Result<Response, ServiceError>)
    ensures
        r == spec_logout_node(result),
{
    match result {
        Ok(done) => if done {
            Ok(Response { status: STATUS_NO_CONTENT, body: Body::Empty })
        } else {
            Ok(Response { status: STATUS_UNPROCESSABLE, body: Body::Empty })
        },
        Err(e) => Err(e),
    }
}

} // verus!
