use neovim::envelope::{response_outcome, EnvelopeError, RpcMessage};
use neovim::value::Value;

fn value_eq(a: &Value, b: &Value) -> bool {
    match (a, b) {
        (Value::Nil, Value::Nil) => true,
        (Value::Boolean(x), Value::Boolean(y)) => x == y,
        (Value::Int(x), Value::Int(y)) => x == y,
        (Value::Uint(x), Value::Uint(y)) => x == y,
        (Value::Text(x), Value::Text(y)) => x == y,
        (Value::Binary(x), Value::Binary(y)) => x == y,
        (Value::Array(xs), Value::Array(ys)) => {
            xs.len() == ys.len() && xs.iter().zip(ys.iter()).all(|(x, y)| value_eq(x, y))
        }
        (Value::Dict(xs), Value::Dict(ys)) => {
            xs.len() == ys.len()
                && xs
                    .iter()
                    .zip(ys.iter())
                    .all(|(x, y)| value_eq(&x.key, &y.key) && value_eq(&x.val, &y.val))
        }
        (Value::Extended(tx, dx), Value::Extended(ty, dy)) => tx == ty && dx == dy,
        _ => false,
    }
}

#[test]
fn envelope_request_round_trips() {
    let msg = RpcMessage::Request {
        id: 42,
        method: "vim_get_vvar".to_string(),
        params: vec![Value::Text("version".to_string()), Value::Int(-3)],
    };
    let v = msg.to_value();
    match RpcMessage::from_value(v).unwrap() {
        RpcMessage::Request { id, method, params } => {
            assert_eq!(id, 42);
            assert_eq!(method, "vim_get_vvar");
            assert_eq!(params.len(), 2);
            assert!(value_eq(&params[0], &Value::Text("version".to_string())));
            assert!(value_eq(&params[1], &Value::Int(-3)));
        }
        _ => panic!("expected a request"),
    }
}

#[test]
fn envelope_response_round_trips() {
    let msg = RpcMessage::Response {
        id: 7,
        error: Value::Nil,
        result: Value::Uint(801),
    };
    let v = msg.to_value();
    match RpcMessage::from_value(v).unwrap() {
        RpcMessage::Response { id, error, result } => {
            assert_eq!(id, 7);
            assert!(value_eq(&error, &Value::Nil));
            assert!(value_eq(&result, &Value::Uint(801)));
        }
        _ => panic!("expected a response"),
    }
}

#[test]
fn envelope_notification_round_trips() {
    let msg = RpcMessage::Notification {
        method: "redraw".to_string(),
        params: vec![Value::Array(vec![Value::Nil])],
    };
    let v = msg.to_value();
    match RpcMessage::from_value(v).unwrap() {
        RpcMessage::Notification { method, params } => {
            assert_eq!(method, "redraw");
            assert_eq!(params.len(), 1);
            assert!(value_eq(&params[0], &Value::Array(vec![Value::Nil])));
        }
        _ => panic!("expected a notification"),
    }
}

#[test]
fn envelope_accepts_signed_tags_and_ids() {
    // A peer may encode the tag and the id as any integer kind.
    let v = Value::Array(vec![
        Value::Int(1),
        Value::Int(9),
        Value::Nil,
        Value::Text("ok".to_string()),
    ]);
    match RpcMessage::from_value(v).unwrap() {
        RpcMessage::Response { id, .. } => assert_eq!(id, 9),
        _ => panic!("expected a response"),
    }
}

#[test]
fn envelope_rejects_malformed_values() {
    // Not an array at all.
    assert_eq!(
        RpcMessage::from_value(Value::Int(1)).unwrap_err(),
        EnvelopeError::NotAnEnvelope
    );
    // Wrong arity.
    assert_eq!(
        RpcMessage::from_value(Value::Array(vec![Value::Uint(1), Value::Uint(2)])).unwrap_err(),
        EnvelopeError::NotAnEnvelope
    );
    // Unknown tag.
    let v = Value::Array(vec![
        Value::Uint(9),
        Value::Uint(1),
        Value::Nil,
        Value::Nil,
    ]);
    assert_eq!(
        RpcMessage::from_value(v).unwrap_err(),
        EnvelopeError::NotAnEnvelope
    );
    // A negative id.
    let v = Value::Array(vec![
        Value::Uint(1),
        Value::Int(-1),
        Value::Nil,
        Value::Nil,
    ]);
    assert_eq!(
        RpcMessage::from_value(v).unwrap_err(),
        EnvelopeError::NotAnEnvelope
    );
    // A request whose method is not text.
    let v = Value::Array(vec![
        Value::Uint(0),
        Value::Uint(1),
        Value::Int(5),
        Value::Array(vec![]),
    ]);
    assert_eq!(
        RpcMessage::from_value(v).unwrap_err(),
        EnvelopeError::NotAnEnvelope
    );
}

#[test]
fn envelope_response_outcome_splits_on_nil_error() {
    match response_outcome(Value::Nil, Value::Uint(3)) {
        Ok(v) => assert!(value_eq(&v, &Value::Uint(3))),
        Err(_) => panic!("expected Ok"),
    }
    match response_outcome(Value::Text("boom".to_string()), Value::Uint(3)) {
        Ok(_) => panic!("expected Err"),
        Err(e) => assert!(value_eq(&e, &Value::Text("boom".to_string()))),
    }
}
