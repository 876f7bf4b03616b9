//! Wire envelopes: the three message shapes this protocol exchanges.
//!
//! A request travels as the 4-tuple `[0, id, method, params]`, a response
//! as `[1, id, error, result]`, and a notification as the 3-tuple
//! `[2, method, params]`. Payload values inside an envelope are opaque;
//! only the envelope frame is interpreted here.

use vstd::prelude::*;

use crate::value::{int_of, lemma_array_model, uint_of, values_model, Value, ValueModel};

verus! {

/// One complete protocol message.
#[derive(Debug)]
pub enum RpcMessage {
    /// An outbound call: the peer is asked to run `method` on `params`
    /// and to answer under `id`.
    Request { id: u64, method: String, params: Vec<Value> },
    /// The peer's answer to the call issued under `id`; exactly one of
    /// `error` and `result` is meaningful, and `error` is `Nil` on
    /// success.
    Response { id: u64, error: Value, result: Value },
    /// A one-way message: no id, no answer owed.
    Notification { method: String, params: Vec<Value> },
}

/// The model of an `RpcMessage`.
#[verifier::ext_equal]
pub ghost enum MessageModel {
    Request { id: u64, method: Seq<char>, params: Seq<ValueModel> },
    Response { id: u64, error: ValueModel, result: ValueModel },
    Notification { method: Seq<char>, params: Seq<ValueModel> },
}

impl DeepView for RpcMessage {
    type V = MessageModel;

    open spec fn deep_view(&self) -> MessageModel {
        match self {
            RpcMessage::Request { id, method, params } => MessageModel::Request {
                id: *id,
                method: method@,
                params: values_model(params@),
            },
            RpcMessage::Response { id, error, result } => MessageModel::Response {
                id: *id,
                error: error.deep_view(),
                result: result.deep_view(),
            },
            RpcMessage::Notification { method, params } => MessageModel::Notification {
                method: method@,
                params: values_model(params@),
            },
        }
    }
}

/// The value a message travels as.
pub open spec fn envelope_value(m: MessageModel) -> ValueModel {
    match m {
        MessageModel::Request { id, method, params } => ValueModel::Array(
            seq![
                ValueModel::Uint(0),
                ValueModel::Uint(id as int),
                ValueModel::Text(method),
                ValueModel::Array(params),
            ],
        ),
        MessageModel::Response { id, error, result } => ValueModel::Array(
            seq![ValueModel::Uint(1), ValueModel::Uint(id as int), error, result],
        ),
        MessageModel::Notification { method, params } => ValueModel::Array(
            seq![ValueModel::Uint(2), ValueModel::Text(method), ValueModel::Array(params)],
        ),
    }
}

/// The message a value carries, when its frame is one of the three
/// envelope shapes. The type tag and the id may travel as any integer
/// value that carries the right number.
pub open spec fn envelope_spec(m: ValueModel) -> Option<MessageModel> {
    match m {
        ValueModel::Array(xs) => {
            if xs.len() == 4 && int_of(xs[0]) == Some(0i64) {
                match (uint_of(xs[1]), xs[2], xs[3]) {
                    (
                        Some(id),
                        ValueModel::Text(method),
                        ValueModel::Array(params),
                    ) => Some(MessageModel::Request { id, method, params }),
                    _ => None,
                }
            } else if xs.len() == 4 && int_of(xs[0]) == Some(1i64) {
                match uint_of(xs[1]) {
                    Some(id) => Some(MessageModel::Response { id, error: xs[2], result: xs[3] }),
                    None => None,
                }
            } else if xs.len() == 3 && int_of(xs[0]) == Some(2i64) {
                match (xs[1], xs[2]) {
                    (
                        ValueModel::Text(method),
                        ValueModel::Array(params),
                    ) => Some(MessageModel::Notification { method, params }),
                    _ => None,
                }
            } else {
                None
            }
        },
        _ => None,
    }
}

/// A value that carries no recognizable envelope.
#[derive(Debug, PartialEq, Eq, Structural)]
pub enum EnvelopeError {
    NotAnEnvelope,
}

impl RpcMessage {
    /// The envelope value this message travels as.
    pub fn to_value(self) -> (r: Value)
        ensures
            r.deep_view() == envelope_value(self.deep_view()),
            envelope_spec(r.deep_view()) == Some(self.deep_view()),
    {
        let ghost model = self.deep_view();
        let mut xs: Vec<Value> = Vec::new();
        match self {
            RpcMessage::Request { id, method, params } => {
                xs.push(Value::Uint(0));
                xs.push(Value::Uint(id));
                xs.push(Value::Text(method));
                xs.push(Value::Array(params));
            },
            RpcMessage::Response { id, error, result } => {
                xs.push(Value::Uint(1));
                xs.push(Value::Uint(id));
                xs.push(error);
                xs.push(result);
            },
            RpcMessage::Notification { method, params } => {
                xs.push(Value::Uint(2));
                xs.push(Value::Text(method));
                xs.push(Value::Array(params));
            },
        }
        let r = Value::Array(xs);
        proof {
            lemma_array_model(r);
            assert forall|i: int| 0 <= i < xs@.len() implies values_model(xs@)[i] == xs@[
                i
            ].deep_view() by {}
            match model {
                MessageModel::Request { id, method, params } => {
                    lemma_array_model(xs@[3]);
                    assert(values_model(xs@) =~= seq![
                        ValueModel::Uint(0),
                        ValueModel::Uint(id as int),
                        ValueModel::Text(method),
                        ValueModel::Array(params),
                    ]);
                },
                MessageModel::Response { id, error, result } => {
                    assert(values_model(xs@) =~= seq![
                        ValueModel::Uint(1),
                        ValueModel::Uint(id as int),
                        error,
                        result,
                    ]);
                },
                MessageModel::Notification { method, params } => {
                    lemma_array_model(xs@[2]);
                    assert(values_model(xs@) =~= seq![
                        ValueModel::Uint(2),
                        ValueModel::Text(method),
                        ValueModel::Array(params),
                    ]);
                },
            }
            assert(r.deep_view() == envelope_value(model));
            lemma_envelope_round_trip(model);
        }
        r
    }

    /// Read a message out of an envelope value; `NotAnEnvelope` exactly
    /// when the value has none of the three envelope shapes.
    pub fn from_value(v: Value) -> (r: Result<RpcMessage, EnvelopeError>)
        ensures
            match r {
                Ok(msg) => envelope_spec(v.deep_view()) == Some(msg.deep_view()),
                Err(_) => envelope_spec(v.deep_view()) is None,
            },
    {
        proof {
            if v matches Value::Array(_) {
                lemma_array_model(v);
            }
        }
        let ghost vm = v.deep_view();
        let mut xs = match v {
            Value::Array(xs) => xs,
            _ => {
                return Err(EnvelopeError::NotAnEnvelope);
            },
        };
        let ghost orig = xs@;
        proof {
            assert(vm == ValueModel::Array(values_model(orig)));
        }
        if xs.len() == 4 {
            let a = xs.remove(0);
            let b = xs.remove(0);
            let c = xs.remove(0);
            let d = xs.remove(0);
            proof {
                assert(a == orig[0] && b == orig[1] && c == orig[2] && d == orig[3]);
                assert(values_model(orig)[0] == orig[0].deep_view());
                assert(values_model(orig)[1] == orig[1].deep_view());
                assert(values_model(orig)[2] == orig[2].deep_view());
                assert(values_model(orig)[3] == orig[3].deep_view());
            }
            let tag = match a.as_int() {
                Some(t) => t,
                None => {
                    return Err(EnvelopeError::NotAnEnvelope);
                },
            };
            if tag == 0 {
                let id = match b.as_uint() {
                    Some(id) => id,
                    None => {
                        return Err(EnvelopeError::NotAnEnvelope);
                    },
                };
                let method = match c {
                    Value::Text(m) => m,
                    _ => {
                        return Err(EnvelopeError::NotAnEnvelope);
                    },
                };
                let params = match d {
                    Value::Array(p) => p,
                    _ => {
                        return Err(EnvelopeError::NotAnEnvelope);
                    },
                };
                proof {
                    lemma_array_model(orig[3]);
                }
                Ok(RpcMessage::Request { id, method, params })
            } else if tag == 1 {
                let id = match b.as_uint() {
                    Some(id) => id,
                    None => {
                        return Err(EnvelopeError::NotAnEnvelope);
                    },
                };
                Ok(RpcMessage::Response { id, error: c, result: d })
            } else {
                Err(EnvelopeError::NotAnEnvelope)
            }
        } else if xs.len() == 3 {
            let a = xs.remove(0);
            let b = xs.remove(0);
            let c = xs.remove(0);
            proof {
                assert(a == orig[0] && b == orig[1] && c == orig[2]);
                assert(values_model(orig)[0] == orig[0].deep_view());
                assert(values_model(orig)[1] == orig[1].deep_view());
                assert(values_model(orig)[2] == orig[2].deep_view());
            }
            let tag = match a.as_int() {
                Some(t) => t,
                None => {
                    return Err(EnvelopeError::NotAnEnvelope);
                },
            };
            if tag == 2 {
                let method = match b {
                    Value::Text(m) => m,
                    _ => {
                        return Err(EnvelopeError::NotAnEnvelope);
                    },
                };
                let params = match c {
                    Value::Array(p) => p,
                    _ => {
                        return Err(EnvelopeError::NotAnEnvelope);
                    },
                };
                proof {
                    lemma_array_model(orig[2]);
                }
                Ok(RpcMessage::Notification { method, params })
            } else {
                Err(EnvelopeError::NotAnEnvelope)
            }
        } else {
            Err(EnvelopeError::NotAnEnvelope)
        }
    }
}

/// The outcome a response envelope reports: the result on a `Nil` error,
/// the error value otherwise.
pub fn response_outcome(error: Value, result: Value) -> (r: Result<Value, Value>)
    ensures
        error.deep_view() == ValueModel::Nil ==> r == Ok::<Value, Value>(result),
        error.deep_view() != ValueModel::Nil ==> r == Err::<Value, Value>(error),
{
    match error {
        Value::Nil => Ok(result),
        e => Err(e),
    }
}

/// Round trip: the envelope value built for a message reads back as
/// exactly that message — id, method, ordered parameters, error and
/// result all preserved.
pub proof fn lemma_envelope_round_trip(m: MessageModel)
    ensures
        envelope_spec(envelope_value(m)) == Some(m),
{
    match m {
        MessageModel::Request { id, method, params } => {
            let xs = envelope_value(m)->Array_0;
            assert(xs.len() == 4);
            assert(xs[0] == ValueModel::Uint(0));
            assert(xs[1] == ValueModel::Uint(id as int));
            assert(int_of(xs[0]) == Some(0i64));
            assert(uint_of(xs[1]) == Some(id));
        },
        MessageModel::Response { id, error, result } => {
            let xs = envelope_value(m)->Array_0;
            assert(xs.len() == 4);
            assert(int_of(xs[0]) == Some(1i64));
            assert(uint_of(xs[1]) == Some(id));
        },
        MessageModel::Notification { method, params } => {
            let xs = envelope_value(m)->Array_0;
            assert(xs.len() == 3);
            assert(int_of(xs[0]) == Some(2i64));
        },
    }
}

} // verus!
