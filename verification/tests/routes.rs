//! Tests of the request path: reply interpretation, the status-code mapping
//! of every route, and the codes and labels of the domain types.

use iscsi_web::client::{self, BusReply};
use iscsi_web::proxy::{self, Body, Response};
use iscsi_web::types::{AuthOptions, Initiator, LoginOutcome, Node, ServiceError, Startup};

fn bus_error() -> ServiceError {
    ServiceError::Bus("connection reset".to_string())
}

#[test]
fn discover_true_maps_to_204_for_valid_inputs() {
    // The status mapping holds for any valid address/port pair; try the
    // port range's edges.
    for port in [0u32, 1, 3260, 65535] {
        let address = "192.168.1.1".to_string();
        assert!(client::valid_discover_input(&address, port));
        match proxy::discover(Ok(true)) {
            Ok(Response { status, body }) => {
                assert_eq!(status, 204);
                assert!(matches!(body, Body::Empty));
            }
            Err(e) => panic!("unexpected transport error: {:?}", e),
        }
    }
}

#[test]
fn discover_false_maps_to_400() {
    match proxy::discover(Ok(false)) {
        Ok(Response { status, body }) => {
            assert_eq!(status, 400);
            assert!(matches!(body, Body::Empty));
        }
        Err(e) => panic!("unexpected transport error: {:?}", e),
    }
}

#[test]
fn discover_input_validation_rejects_bad_inputs() {
    assert!(!client::valid_discover_input(&"".to_string(), 3260));
    assert!(!client::valid_discover_input(&"192.168.1.1".to_string(), 65536));
    assert!(client::valid_discover_input(&"a".to_string(), 65535));
    assert!(!client::valid_initiator_name(&"".to_string()));
    assert!(client::valid_initiator_name(&"iqn.test:x".to_string()));
}

#[test]
fn login_success_maps_to_empty_204() {
    match proxy::login_node(Ok(LoginOutcome::Success)) {
        Ok(Response { status, body }) => {
            assert_eq!(status, 204);
            assert!(matches!(body, Body::Empty));
        }
        Err(e) => panic!("unexpected transport error: {:?}", e),
    }
}

#[test]
fn login_refusals_map_to_422_with_their_own_code() {
    for outcome in [
        LoginOutcome::AuthFailure,
        LoginOutcome::AlreadyLoggedIn,
        LoginOutcome::TargetUnreachable,
    ] {
        match proxy::login_node(Ok(outcome)) {
            Ok(Response { status, body }) => {
                assert_eq!(status, 422);
                match body {
                    Body::CodeBody(code) => assert_eq!(code, outcome),
                    other => panic!("unexpected body: {:?}", other),
                }
            }
            Err(e) => panic!("unexpected transport error: {:?}", e),
        }
    }
}

#[test]
fn login_with_wrong_credentials_answers_422_auth_failure() {
    // A backing service configured to reject the credentials answers the
    // login round trip with the auth-failure code.
    let auth = AuthOptions {
        username: Some("user".to_string()),
        password: Some("not-the-right-one".to_string()),
        reverse_username: None,
        reverse_password: None,
    };
    assert!(auth.username.is_some());
    let reply = Ok(BusReply::CodeReply(1));
    let outcome = client::login(reply).expect("a refusal is not a transport error");
    assert_eq!(outcome, LoginOutcome::AuthFailure);
    match proxy::login_node(Ok(outcome)) {
        Ok(Response { status, body }) => {
            assert_eq!(status, 422);
            match body {
                Body::CodeBody(code) => {
                    assert_eq!(code, LoginOutcome::AuthFailure);
                    assert_eq!(code.name(), "AuthFailure");
                }
                other => panic!("unexpected body: {:?}", other),
            }
        }
        Err(e) => panic!("unexpected transport error: {:?}", e),
    }
}

#[test]
fn renamed_initiator_is_reflected_by_the_next_read() {
    // An in-memory stand-in for the backing service: the bus round trips are
    // simulated, the mapping under test is the library's.
    let wanted = "iqn.2024-01.test:initiator".to_string();

    // PATCH /initiator {"name": ...}: the service acknowledges the rename.
    assert!(client::valid_initiator_name(&wanted));
    let patch = proxy::update_initiator(client::set_initiator_name(Ok(BusReply::Ack)))
        .expect("rename round trip succeeded");
    assert_eq!(patch.status, 204);
    assert!(matches!(patch.body, Body::Empty));
    let service_name = wanted.clone();

    // GET /initiator: the read now reflects the new name.
    let reply = Ok(BusReply::InitiatorReply {
        name: service_name.clone(),
        ibft: false,
    });
    let get = proxy::initiator(client::get_initiator(reply)).expect("read round trip succeeded");
    assert_eq!(get.status, 200);
    match get.body {
        Body::InitiatorBody(Initiator { name, ibft }) => {
            assert_eq!(name, wanted);
            assert!(!ibft);
        }
        other => panic!("unexpected body: {:?}", other),
    }
}

#[test]
fn deleting_an_unknown_node_propagates_the_bus_error() {
    // DELETE /nodes/42 where the backing call fails: the transport error
    // comes back out, never a 204.
    let result = proxy::delete_node(client::delete_node(Err(bus_error())));
    match result {
        Err(ServiceError::Bus(msg)) => assert_eq!(msg, "connection reset"),
        other => panic!("the bus failure was swallowed: {:?}", other),
    }
}

#[test]
fn every_route_passes_a_transport_error_through() {
    assert!(proxy::initiator(Err(bus_error())).is_err());
    assert!(proxy::update_initiator(Err(bus_error())).is_err());
    assert!(proxy::nodes(Err(bus_error())).is_err());
    assert!(proxy::discover(Err(bus_error())).is_err());
    assert!(proxy::update_node(Err(bus_error())).is_err());
    assert!(proxy::delete_node(Err(bus_error())).is_err());
    assert!(proxy::login_node(Err(bus_error())).is_err());
    assert!(proxy::logout_node(Err(bus_error())).is_err());
}

#[test]
fn node_listing_maps_to_200_with_the_list() {
    let node = Node {
        id: 1,
        address: "192.168.1.10".to_string(),
        port: 3260,
        target: "iqn.test:target".to_string(),
        startup: Startup::Onboot,
        connected: false,
    };
    let reply = Ok(BusReply::NodesReply(vec![node]));
    let resp = proxy::nodes(client::get_nodes(reply)).expect("listing succeeded");
    assert_eq!(resp.status, 200);
    match resp.body {
        Body::NodesBody(ns) => {
            assert_eq!(ns.len(), 1);
            assert_eq!(ns[0].id, 1);
            assert_eq!(ns[0].target, "iqn.test:target");
        }
        other => panic!("unexpected body: {:?}", other),
    }
}

#[test]
fn startup_change_and_logout_map_like_the_table_says() {
    let patched = proxy::update_node(client::set_startup(Ok(BusReply::Ack))).unwrap();
    assert_eq!(patched.status, 204);
    let out = proxy::logout_node(client::logout(Ok(BusReply::FlagReply(true)))).unwrap();
    assert_eq!(out.status, 204);
    let refused = proxy::logout_node(client::logout(Ok(BusReply::FlagReply(false)))).unwrap();
    assert_eq!(refused.status, 422);
    assert!(matches!(refused.body, Body::Empty));
}

#[test]
fn a_reply_of_the_wrong_shape_is_a_transport_error() {
    assert!(matches!(
        client::get_initiator(Ok(BusReply::Ack)),
        Err(ServiceError::UnexpectedReply)
    ));
    assert!(matches!(
        client::set_initiator_name(Ok(BusReply::FlagReply(true))),
        Err(ServiceError::UnexpectedReply)
    ));
    assert!(matches!(
        client::get_nodes(Ok(BusReply::Ack)),
        Err(ServiceError::UnexpectedReply)
    ));
    assert!(matches!(
        client::discover(Ok(BusReply::CodeReply(0))),
        Err(ServiceError::UnexpectedReply)
    ));
    assert!(matches!(
        client::login(Ok(BusReply::Ack)),
        Err(ServiceError::UnexpectedReply)
    ));
    assert!(matches!(
        client::login(Ok(BusReply::CodeReply(7))),
        Err(ServiceError::UnexpectedReply)
    ));
    assert!(matches!(
        client::logout(Ok(BusReply::Ack)),
        Err(ServiceError::UnexpectedReply)
    ));
}

#[test]
fn login_outcome_codes_round_trip() {
    let outcomes = [
        (LoginOutcome::Success, 0, "Success"),
        (LoginOutcome::AuthFailure, 1, "AuthFailure"),
        (LoginOutcome::AlreadyLoggedIn, 2, "AlreadyLoggedIn"),
        (LoginOutcome::TargetUnreachable, 3, "TargetUnreachable"),
    ];
    for (outcome, code, name) in outcomes {
        assert_eq!(outcome.code(), code);
        assert_eq!(LoginOutcome::from_code(code), Some(outcome));
        assert_eq!(outcome.name(), name);
    }
    assert_eq!(LoginOutcome::from_code(4), None);
}

#[test]
fn startup_labels_round_trip() {
    for startup in [Startup::Onboot, Startup::Manual, Startup::Automatic] {
        assert_eq!(Startup::parse(&startup.label()), Some(startup));
    }
    assert_eq!(Startup::parse(&"never".to_string()), None);
    assert_eq!(Startup::Onboot.label(), "onboot");
    assert_eq!(Startup::Manual.label(), "manual");
    assert_eq!(Startup::Automatic.label(), "automatic");
}
