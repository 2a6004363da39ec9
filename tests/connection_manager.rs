use tari_conn_manager::actor::{ConnectDecision, ConnectionDirection, ConnectionTable};
use tari_conn_manager::dialer::{fatal_for_dial, filter_addresses, AttemptOutcome, DialPlan, DialStep};
use tari_conn_manager::error::{
    ConnectionManagerError, IdentityProtocolError, NoiseError, PeerConnectionError, PeerManagerError,
    PeerValidatorError, ProtocolError, YamuxControlError,
};
use tari_conn_manager::listener::{bind_result, bind_results};

fn strings(items: &[&str]) -> Vec<String> {
    items.iter().map(|s| s.to_string()).collect()
}

#[test]
fn peer_connection_error_messages() {
    assert_eq!(
        PeerConnectionError::ProtocolNegotiationTimeout.to_message(),
        "Protocol negotiation timeout"
    );
    assert_eq!(
        PeerConnectionError::InternalReplyCancelled.to_message(),
        "Internal oneshot reply channel was unexpectedly cancelled"
    );
    assert_eq!(
        PeerConnectionError::InternalRequestSendFailed.to_message(),
        "Failed to send internal request: channel closed"
    );
    let e = PeerConnectionError::YamuxControlError(YamuxControlError { details: "closing".to_string() });
    assert_eq!(e.to_message(), "Yamux error: closing");
    let e = PeerConnectionError::ProtocolError(ProtocolError { details: "eof".to_string() });
    assert_eq!(e.to_message(), "Protocol error: eof");
}

#[test]
fn peer_connection_error_converts_to_its_text() {
    let e = ConnectionManagerError::from(PeerConnectionError::ProtocolNegotiationTimeout);
    assert_eq!(e, ConnectionManagerError::PeerConnectionError("Protocol negotiation timeout".to_string()));
}

#[test]
fn noise_errors_are_classified() {
    let e = ConnectionManagerError::from(NoiseError::SnowError("bad key".to_string()));
    assert_eq!(e, ConnectionManagerError::NoiseSnowError("bad key".to_string()));
    let e = ConnectionManagerError::from(NoiseError::HandshakeFailed("short".to_string()));
    assert_eq!(e, ConnectionManagerError::NoiseHandshakeError("short".to_string()));
}

#[test]
fn collaborator_errors_pass_through() {
    let pm = PeerManagerError { details: "missing".to_string() };
    assert_eq!(ConnectionManagerError::from(pm.clone()), ConnectionManagerError::PeerManagerError(pm));
    let pv = PeerValidatorError { details: "stale".to_string() };
    assert_eq!(ConnectionManagerError::from(pv.clone()), ConnectionManagerError::PeerValidationError(pv));
    let ip = IdentityProtocolError { details: "version".to_string() };
    assert_eq!(ConnectionManagerError::from(ip.clone()), ConnectionManagerError::IdentityProtocolError(ip));
    let yc = YamuxControlError { details: "gone".to_string() };
    assert_eq!(ConnectionManagerError::from(yc.clone()), ConnectionManagerError::YamuxControlError(yc.clone()));
    assert_eq!(PeerConnectionError::from(yc.clone()), PeerConnectionError::YamuxControlError(yc));
    let pe = ProtocolError { details: "io".to_string() };
    assert_eq!(PeerConnectionError::from(pe.clone()), PeerConnectionError::ProtocolError(pe));
}

#[test]
fn yamux_connection_error_keeps_its_description() {
    let e = ConnectionManagerError::from(yamux::ConnectionError::Closed);
    assert_eq!(e, ConnectionManagerError::YamuxConnectionError("connection is closed".to_string()));
    let e = ConnectionManagerError::from(yamux::ConnectionError::TooManyStreams);
    assert_eq!(e, ConnectionManagerError::YamuxConnectionError("maximum number of streams reached".to_string()));
}

#[test]
fn exclusions_are_filtered_in_order() {
    let r = filter_addresses(&strings(&["/a", "/b", "/c", "/b"]), &strings(&["/b"]));
    assert_eq!(r, strings(&["/a", "/c"]));
    let r = filter_addresses(&strings(&["/a"]), &strings(&[]));
    assert_eq!(r, strings(&["/a"]));
}

#[test]
fn fully_excluded_dial_fails_without_attempts() {
    let r = DialPlan::new("node1".to_string(), &strings(&["/a", "/b"]), &strings(&["/b", "/a"]), None, 5);
    match r {
        Err(e) => assert_eq!(e, ConnectionManagerError::AllPeerAddressesAreExcluded("node1".to_string())),
        Ok(_) => panic!("dial must fail"),
    }
}

#[test]
fn dial_without_candidates_fails() {
    let r = DialPlan::new("node1".to_string(), &strings(&[]), &strings(&[]), None, 5);
    match r {
        Err(e) => assert_eq!(e, ConnectionManagerError::NoContactableAddressesForPeer("node1".to_string())),
        Ok(_) => panic!("dial must fail"),
    }
}

#[test]
fn transport_failures_try_every_address_once() {
    let candidates = strings(&["/a", "/b", "/c"]);
    let mut plan = match DialPlan::new("n".to_string(), &candidates, &strings(&[]), None, 10) {
        Ok(p) => p,
        Err(_) => panic!("plan expected"),
    };
    let mut tried = Vec::new();
    let last_error = loop {
        match plan.next_address() {
            Ok(addr) => {
                let failure = ConnectionManagerError::TransportError { address: addr.clone(), details: "refused".to_string() };
                tried.push(addr);
                match plan.on_outcome(AttemptOutcome::Failed(failure)) {
                    DialStep::TryNext => {},
                    _ => panic!("a transport failure moves on"),
                }
            },
            Err(e) => break e,
        }
    };
    assert_eq!(tried, candidates);
    assert_eq!(tried.len(), 3);
    assert_eq!(last_error, ConnectionManagerError::DialConnectFailedAllAddresses);
}

#[test]
fn attempt_limit_stops_the_dial() {
    let mut plan = match DialPlan::new("n".to_string(), &strings(&["/a", "/b", "/c"]), &strings(&[]), None, 2) {
        Ok(p) => p,
        Err(_) => panic!("plan expected"),
    };
    assert_eq!(plan.next_address().ok(), Some("/a".to_string()));
    assert_eq!(plan.next_address().ok(), Some("/b".to_string()));
    assert_eq!(plan.next_address().err(), Some(ConnectionManagerError::ConnectFailedMaximumAttemptsReached));
}

#[test]
fn identity_mismatch_aborts_and_is_not_registered() {
    let plan = match DialPlan::new("n".to_string(), &strings(&["/a", "/b"]), &strings(&[]), Some("pk-expected".to_string()), 5) {
        Ok(p) => p,
        Err(_) => panic!("plan expected"),
    };
    let step = plan.on_outcome(AttemptOutcome::Authenticated("pk-other".to_string()));
    let err = match step {
        DialStep::Abort(e) => e,
        _ => panic!("mismatch must abort"),
    };
    assert_eq!(
        err,
        ConnectionManagerError::DialedPublicKeyMismatch {
            authenticated_pk: "pk-other".to_string(),
            expected_pk: "pk-expected".to_string(),
        }
    );
    let mut table = ConnectionTable::new();
    assert!(matches!(table.request_connect("n".to_string(), 1), ConnectDecision::StartDial));
    let done = table.complete_dial("n".to_string(), Err(err.clone()));
    assert_eq!(done.waiters, vec![1]);
    assert_eq!(done.result.err(), Some(err));
    assert!(table.get_connection(&"n".to_string()).is_none());
    assert!(table.list_connections().is_empty());
}

#[test]
fn matching_identity_proceeds() {
    let plan = match DialPlan::new("n".to_string(), &strings(&["/a"]), &strings(&[]), Some("pk".to_string()), 5) {
        Ok(p) => p,
        Err(_) => panic!("plan expected"),
    };
    assert!(matches!(plan.on_outcome(AttemptOutcome::Authenticated("pk".to_string())), DialStep::Proceed));
    let open = match DialPlan::new("n".to_string(), &strings(&["/a"]), &strings(&[]), None, 5) {
        Ok(p) => p,
        Err(_) => panic!("plan expected"),
    };
    assert!(matches!(open.on_outcome(AttemptOutcome::Authenticated("any".to_string())), DialStep::Proceed));
}

#[test]
fn cancellation_aborts_with_dial_cancelled() {
    let plan = match DialPlan::new("n".to_string(), &strings(&["/a"]), &strings(&[]), None, 5) {
        Ok(p) => p,
        Err(_) => panic!("plan expected"),
    };
    match plan.on_outcome(AttemptOutcome::Cancelled) {
        DialStep::Abort(e) => assert_eq!(e, ConnectionManagerError::DialCancelled),
        _ => panic!("cancellation must abort"),
    }
}

#[test]
fn ban_is_fatal_and_handshake_failure_is_not() {
    assert!(fatal_for_dial(&ConnectionManagerError::PeerBanned));
    assert!(fatal_for_dial(&ConnectionManagerError::DialCancelled));
    assert!(!fatal_for_dial(&ConnectionManagerError::NoiseHandshakeError("x".to_string())));
    let plan = match DialPlan::new("n".to_string(), &strings(&["/a", "/b"]), &strings(&[]), None, 5) {
        Ok(p) => p,
        Err(_) => panic!("plan expected"),
    };
    match plan.on_outcome(AttemptOutcome::Failed(ConnectionManagerError::PeerBanned)) {
        DialStep::Abort(e) => assert_eq!(e, ConnectionManagerError::PeerBanned),
        _ => panic!("a ban must abort"),
    }
    assert!(matches!(
        plan.on_outcome(AttemptOutcome::Failed(ConnectionManagerError::NoiseSnowError("x".to_string()))),
        DialStep::TryNext
    ));
}

#[test]
fn concurrent_connects_share_one_dial() {
    let mut table = ConnectionTable::new();
    assert!(matches!(table.request_connect("n".to_string(), 1), ConnectDecision::StartDial));
    assert!(matches!(table.request_connect("n".to_string(), 2), ConnectDecision::Joined));
    assert!(matches!(table.request_connect("n".to_string(), 3), ConnectDecision::Joined));
    assert!(matches!(table.request_connect("m".to_string(), 4), ConnectDecision::StartDial));
    let done = table.complete_dial("n".to_string(), Ok("pk".to_string()));
    assert_eq!(done.waiters, vec![1, 2, 3]);
    let conn = done.result.expect("dial succeeded");
    assert_eq!(conn.node_id, "n");
    assert_eq!(conn.public_key, "pk");
    assert_eq!(conn.direction, ConnectionDirection::Outbound);
    match table.request_connect("n".to_string(), 5) {
        ConnectDecision::Existing(h) => assert_eq!(h, conn),
        _ => panic!("connected node must be returned as is"),
    }
    let other = table.complete_dial("m".to_string(), Err(ConnectionManagerError::DialConnectFailedAllAddresses));
    assert_eq!(other.waiters, vec![4]);
    assert_eq!(other.result.err(), Some(ConnectionManagerError::DialConnectFailedAllAddresses));
}

#[test]
fn second_session_for_a_node_is_refused() {
    let mut table = ConnectionTable::new();
    let first = table.register_inbound("n".to_string(), "pk".to_string()).expect("first session");
    assert_eq!(first.direction, ConnectionDirection::Inbound);
    assert!(matches!(table.request_connect("m".to_string(), 1), ConnectDecision::StartDial));
    let again = table.register_inbound("n".to_string(), "pk2".to_string());
    assert!(matches!(again, Err(ConnectionManagerError::PeerConnectionError(_))));
    // an outbound dial that raced with the inbound session is refused too
    let mut table2 = ConnectionTable::new();
    assert!(matches!(table2.request_connect("n".to_string(), 7), ConnectDecision::StartDial));
    table2.register_inbound("n".to_string(), "pk".to_string()).expect("inbound");
    let done = table2.complete_dial("n".to_string(), Ok("pk".to_string()));
    assert_eq!(done.waiters, vec![7]);
    assert!(matches!(done.result, Err(ConnectionManagerError::PeerConnectionError(_))));
    assert_eq!(table2.list_connections().len(), 1);
    assert_eq!(table.list_connections().len(), 1);
}

#[test]
fn disconnect_invalidates_handles() {
    let mut table = ConnectionTable::new();
    let h = table.register_inbound("n".to_string(), "pk".to_string()).expect("session");
    let other = table.register_inbound("m".to_string(), "pk-m".to_string()).expect("session");
    assert_eq!(table.open_substream(&h), Ok(h.id));
    assert!(table.disconnect(&"n".to_string()));
    assert!(table.get_connection(&"n".to_string()).is_none());
    assert_eq!(table.open_substream(&h), Err(PeerConnectionError::InternalRequestSendFailed));
    assert_eq!(table.open_substream(&other), Ok(other.id));
    assert!(!table.disconnect(&"n".to_string()));
    // a reconnect does not revive the old handle
    let fresh = table.register_inbound("n".to_string(), "pk".to_string()).expect("session");
    assert_ne!(fresh.id, h.id);
    assert_eq!(table.open_substream(&h), Err(PeerConnectionError::InternalRequestSendFailed));
    assert_eq!(table.open_substream(&fresh), Ok(fresh.id));
}

#[test]
fn listener_failure_names_its_address() {
    let r = bind_result(&"/ip4/0.0.0.0/tcp/1".to_string(), &Err("in use".to_string()));
    assert_eq!(
        r,
        Err(ConnectionManagerError::ListenerError {
            address: "/ip4/0.0.0.0/tcp/1".to_string(),
            details: "in use".to_string(),
        })
    );
}

#[test]
fn one_failed_listener_leaves_the_others() {
    let addresses = strings(&["/a", "/b", "/c"]);
    let binds = vec![Ok("/a:1".to_string()), Err("denied".to_string()), Ok("/c:3".to_string())];
    let r = bind_results(&addresses, &binds);
    assert_eq!(r.len(), 3);
    assert_eq!(r[0], Ok("/a:1".to_string()));
    assert_eq!(
        r[1],
        Err(ConnectionManagerError::ListenerError { address: "/b".to_string(), details: "denied".to_string() })
    );
    assert_eq!(r[2], Ok("/c:3".to_string()));
}
