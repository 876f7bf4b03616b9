use neovim::api::ApiInfo;
use neovim::correlator::RegisterOutcome;
use neovim::envelope::RpcMessage;
use neovim::metadata::Metadata;
use neovim::session::{
    check_child_streams, resolve_handshake, CallError, ConnKind, HandshakeError, Inbound,
    PeerAddr, Session, SpawnError,
};
use neovim::value::{Pair, Value};

fn text(s: &str) -> Value {
    Value::Text(s.to_string())
}

fn dict(entries: Vec<(&str, Value)>) -> Value {
    Value::Dict(
        entries
            .into_iter()
            .map(|(k, v)| Pair { key: text(k), val: v })
            .collect(),
    )
}

fn capability_map() -> Value {
    dict(vec![(
        "types",
        dict(vec![
            ("Buffer", dict(vec![("id", Value::Int(0))])),
            ("Window", dict(vec![("id", Value::Int(1))])),
            ("Tabpage", dict(vec![("id", Value::Int(2))])),
        ]),
    )])
}

fn fresh_session() -> Session<&'static str> {
    Session::new(
        Metadata {
            buffer_id: 0,
            window_id: 1,
            tabpage_id: 2,
        },
        ConnKind::Child,
    )
}

#[test]
fn session_handshake_resolves_metadata() {
    // The handshake result is a two-element sequence; the capability map
    // sits at index one.
    let outcome = Ok(Value::Array(vec![Value::Uint(1), capability_map()]));
    let md = resolve_handshake(outcome).unwrap();
    assert_eq!(
        md,
        Metadata {
            buffer_id: 0,
            window_id: 1,
            tabpage_id: 2
        }
    );
}

#[test]
fn session_handshake_rejects_short_or_foreign_results() {
    match resolve_handshake(Ok(Value::Array(vec![Value::Uint(1)]))) {
        Err(HandshakeError::MalformedResult) => {}
        other => panic!("expected MalformedResult, got {:?}", other),
    }
    match resolve_handshake(Ok(Value::Int(3))) {
        Err(HandshakeError::MalformedResult) => {}
        other => panic!("expected MalformedResult, got {:?}", other),
    }
    match resolve_handshake(Err(text("no such method"))) {
        Err(HandshakeError::Rpc(Value::Text(s))) => assert_eq!(s, "no such method"),
        other => panic!("expected Rpc, got {:?}", other),
    }
    match resolve_handshake(Ok(Value::Array(vec![Value::Uint(1), Value::Int(9)]))) {
        Err(HandshakeError::Metadata(_)) => {}
        other => panic!("expected Metadata, got {:?}", other),
    }
}

#[test]
fn session_calls_get_increasing_ids_and_encoded_requests() {
    let mut s = fresh_session();
    let (id1, bytes1) = s.begin_call("one".to_string(), vec![]).unwrap();
    let (id2, bytes2) = s
        .begin_call("two".to_string(), vec![Value::Uint(5)])
        .unwrap();
    assert_eq!(id1, 0);
    assert_eq!(id2, 1);
    assert!(!bytes1.is_empty());
    assert!(!bytes2.is_empty());
    // What was encoded is the request envelope, byte for byte.
    let expected = neovim::codec::encode_value(
        &RpcMessage::Request {
            id: 0,
            method: "one".to_string(),
            params: vec![],
        }
        .to_value(),
    )
    .unwrap();
    assert_eq!(bytes1, expected);
}

#[test]
fn session_routes_response_to_registered_slot() {
    let mut s = fresh_session();
    let (id, _bytes) = s.begin_call("ping".to_string(), vec![]).unwrap();
    assert!(matches!(
        s.register_call(id, "caller"),
        RegisterOutcome::Registered
    ));

    let envelope = RpcMessage::Response {
        id,
        error: Value::Nil,
        result: text("pong"),
    }
    .to_value();
    match s.on_message(envelope) {
        Inbound::Response {
            id: rid,
            slot,
            outcome,
        } => {
            assert_eq!(rid, id);
            assert_eq!(slot, "caller");
            assert!(matches!(outcome, Ok(Value::Text(t)) if t == "pong"));
        }
        _ => panic!("expected a routed response"),
    }
}

#[test]
fn session_reports_rpc_errors_to_the_caller() {
    let mut s = fresh_session();
    let (id, _bytes) = s.begin_call("bad".to_string(), vec![]).unwrap();
    assert!(matches!(
        s.register_call(id, "caller"),
        RegisterOutcome::Registered
    ));
    let envelope = RpcMessage::Response {
        id,
        error: text("no such method"),
        result: Value::Nil,
    }
    .to_value();
    match s.on_message(envelope) {
        Inbound::Response { outcome, .. } => {
            assert!(matches!(outcome, Err(Value::Text(t)) if t == "no such method"));
        }
        _ => panic!("expected a routed response"),
    }
}

#[test]
fn session_drops_and_counts_stale_responses() {
    let mut s = fresh_session();
    let envelope = RpcMessage::Response {
        id: 99,
        error: Value::Nil,
        result: Value::Nil,
    }
    .to_value();
    match s.on_message(envelope) {
        Inbound::StaleResponse { id } => assert_eq!(id, 99),
        _ => panic!("expected a stale response"),
    }
    assert_eq!(s.correlator.anomaly_count(), 1);
}

#[test]
fn session_queues_notifications_until_drained() {
    let mut s = fresh_session();
    let envelope = RpcMessage::Notification {
        method: "redraw".to_string(),
        params: vec![Value::Uint(1)],
    }
    .to_value();
    assert!(matches!(s.on_message(envelope), Inbound::Notified));
    let drained = s.take_notifications();
    assert_eq!(drained.len(), 1);
    assert_eq!(drained[0].0, "redraw");
    assert!(matches!(drained[0].1[0], Value::Uint(1)));
    assert!(s.take_notifications().is_empty());
}

#[test]
fn session_surfaces_peer_requests_distinctly() {
    let mut s = fresh_session();
    let envelope = RpcMessage::Request {
        id: 4,
        method: "do_thing".to_string(),
        params: vec![],
    }
    .to_value();
    match s.on_message(envelope) {
        Inbound::PeerRequest { id, method, .. } => {
            assert_eq!(id, 4);
            assert_eq!(method, "do_thing");
        }
        _ => panic!("expected a peer request"),
    }
}

#[test]
fn session_ignores_values_that_are_no_envelope() {
    let mut s = fresh_session();
    assert!(matches!(s.on_message(Value::Int(7)), Inbound::Anomaly));
    assert!(matches!(
        s.on_message(Value::Array(vec![Value::Nil])),
        Inbound::Anomaly
    ));
}

#[test]
fn session_failure_fans_out_to_pending_and_future_calls() {
    let mut s = fresh_session();
    let (id1, _) = s.begin_call("a".to_string(), vec![]).unwrap();
    let (id2, _) = s.begin_call("b".to_string(), vec![]).unwrap();
    assert!(matches!(
        s.register_call(id1, "first"),
        RegisterOutcome::Registered
    ));
    assert!(matches!(
        s.register_call(id2, "second"),
        RegisterOutcome::Registered
    ));

    // The reader loop hit a decode error: the session breaks, and every
    // pending caller's slot comes back to be failed.
    let dropped = s.fail_connection();
    assert_eq!(dropped, vec![(id1, "first"), (id2, "second")]);

    // Calls issued afterwards fail instead of hanging.
    match s.begin_call("late".to_string(), vec![]) {
        Err(CallError::Closed) => {}
        other => panic!("expected Closed, got {:?}", other.map(|_| ())),
    }
    match s.register_call(7, "late") {
        RegisterOutcome::Closed(slot) => assert_eq!(slot, "late"),
        _ => panic!("expected Closed"),
    }
}

#[test]
fn session_spawn_preconditions_are_distinguished() {
    assert_eq!(check_child_streams(true, true), Ok(()));
    assert_eq!(
        check_child_streams(false, true),
        Err(SpawnError::StdinUnavailable)
    );
    assert_eq!(
        check_child_streams(true, false),
        Err(SpawnError::StdoutUnavailable)
    );
    assert_eq!(
        check_child_streams(false, false),
        Err(SpawnError::StdinUnavailable)
    );
}

#[test]
fn session_exposes_resolved_metadata() {
    let s = fresh_session();
    let md = s.metadata();
    assert_eq!(md.buffer_id, 0);
    assert_eq!(md.window_id, 1);
    assert_eq!(md.tabpage_id, 2);
}

#[test]
fn session_socket_addr_only_for_tcp() {
    let tcp: Session<u32> = Session::new(
        Metadata {
            buffer_id: 0,
            window_id: 1,
            tabpage_id: 2,
        },
        ConnKind::Tcp(PeerAddr {
            text: "127.0.0.1:6666".to_string(),
        }),
    );
    assert_eq!(tcp.socket_addr().unwrap().text, "127.0.0.1:6666");

    let child = fresh_session();
    assert!(child.socket_addr().is_none());
    let stdio: Session<u32> = Session::new(
        Metadata {
            buffer_id: 0,
            window_id: 1,
            tabpage_id: 2,
        },
        ConnKind::Stdio,
    );
    assert!(stdio.socket_addr().is_none());
}

#[test]
fn session_api_info_listing_is_extracted() {
    let listing = dict(vec![(
        "functions",
        Value::Array(vec![dict(vec![
            ("name", text("vim_get_api_info")),
            (
                "parameters",
                Value::Array(vec![Value::Array(vec![text("Integer"), text("count")])]),
            ),
            ("return_type", text("Array")),
            ("async", Value::Boolean(false)),
            ("can_fail", Value::Boolean(true)),
        ])]),
    )]);
    let info = ApiInfo::from_value(&listing).unwrap();
    assert_eq!(info.functions.len(), 1);
    let f = &info.functions[0];
    assert_eq!(f.name, "vim_get_api_info");
    assert_eq!(f.parameters, vec![("Integer".to_string(), "count".to_string())]);
    assert_eq!(f.return_type, "Array");
    assert!(!f.is_async);
    assert!(f.can_fail);
}

#[test]
fn session_api_info_can_fail_defaults_to_false() {
    let listing = dict(vec![(
        "functions",
        Value::Array(vec![dict(vec![
            ("name", text("ui_detach")),
            ("parameters", Value::Array(vec![])),
            ("return_type", text("void")),
            ("async", Value::Boolean(true)),
        ])]),
    )]);
    let info = ApiInfo::from_value(&listing).unwrap();
    assert!(!info.functions[0].can_fail);
    assert!(info.functions[0].is_async);
}

#[test]
fn session_function_describes_itself() {
    let f = neovim::Function {
        name: "vim_eval".to_string(),
        parameters: vec![("String".to_string(), "expr".to_string())],
        return_type: "Object".to_string(),
        is_async: false,
        can_fail: true,
    };
    assert_eq!(f.describe(), "vim_eval(String expr) -> Object [can fail]");

    let g = neovim::Function {
        name: "ui_attach".to_string(),
        parameters: vec![
            ("Integer".to_string(), "width".to_string()),
            ("Integer".to_string(), "height".to_string()),
        ],
        return_type: "void".to_string(),
        is_async: true,
        can_fail: false,
    };
    assert_eq!(g.describe(), "ui_attach(Integer width, Integer height) -> void async");

    let h = neovim::Function {
        name: "nvim_ping".to_string(),
        parameters: vec![],
        return_type: "Boolean".to_string(),
        is_async: false,
        can_fail: false,
    };
    assert_eq!(h.describe(), "nvim_ping() -> Boolean ");
}

#[test]
fn session_api_info_rejects_malformed_listings() {
    assert!(ApiInfo::from_value(&Value::Int(1)).is_err());
    assert!(ApiInfo::from_value(&dict(vec![("functions", Value::Int(1))])).is_err());
    let listing = dict(vec![(
        "functions",
        Value::Array(vec![dict(vec![("name", text("x"))])]),
    )]);
    assert!(ApiInfo::from_value(&listing).is_err());
}
