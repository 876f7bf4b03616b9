//! The session facade: one connection to the peer, its transport kind,
//! its call correlator, its notification inbox, and the metadata resolved
//! by the mandatory handshake.
//!
//! A session never performs input or output itself. The process around it
//! owns the byte streams and the reader loop, and drives the session:
//! `begin_call` yields the id and the encoded request to write,
//! `register_call` parks the caller's slot once the write succeeded,
//! `on_message` routes each decoded incoming value, and
//! `fail_connection` breaks the session when the stream dies.

use vstd::prelude::*;

use crate::codec::{encode_value, fits_wire, msgpack_bytes, EncodeError};
use crate::correlator::{issue_step, slot_in, Correlator, RegisterOutcome};
use crate::envelope::{envelope_spec, envelope_value, MessageModel, RpcMessage};
use crate::metadata::{GetMetadataError, Metadata, MetadataErrorModel, MetadataModel};
use crate::value::{values_model, Value, ValueModel};

verus! {

/// A peer network address, as text.
pub struct PeerAddr {
    pub text: String,
}

/// Which transport a session runs over.
pub enum ConnKind {
    /// A network connection to the given peer address.
    Tcp(PeerAddr),
    /// This process's own standard input and output.
    Stdio,
    /// The piped standard streams of a spawned child process.
    Child,
}

/// Why a child process could not become a session's transport.
#[derive(Debug, PartialEq, Eq, Structural)]
pub enum SpawnError {
    /// The process could not be started at all.
    Start,
    /// The process started but its standard input is not piped.
    StdinUnavailable,
    /// The process started but its standard output is not piped.
    StdoutUnavailable,
}

/// A spawned child can carry a session only with both standard streams
/// piped; stdin is checked first.
pub fn check_child_streams(has_stdin: bool, has_stdout: bool) -> (r: Result<(), SpawnError>)
    ensures
        has_stdin && has_stdout ==> r == Ok::<(), SpawnError>(()),
        !has_stdin ==> r == Err::<(), SpawnError>(SpawnError::StdinUnavailable),
        has_stdin && !has_stdout ==> r == Err::<(), SpawnError>(SpawnError::StdoutUnavailable),
{
    if !has_stdin {
        Err(SpawnError::StdinUnavailable)
    } else if !has_stdout {
        Err(SpawnError::StdoutUnavailable)
    } else {
        Ok(())
    }
}

/// Why the handshake did not yield a session.
#[derive(Debug)]
pub enum HandshakeError {
    /// The peer answered the handshake call with an error value.
    Rpc(Value),
    /// The reply's result is not the two-element sequence the handshake
    /// method promises.
    MalformedResult,
    /// The capability map failed validation.
    Metadata(GetMetadataError),
}

/// The model of a `HandshakeError`.
#[verifier::ext_equal]
pub ghost enum HandshakeErrorModel {
    Rpc(ValueModel),
    MalformedResult,
    Metadata(MetadataErrorModel),
}

impl DeepView for HandshakeError {
    type V = HandshakeErrorModel;

    open spec fn deep_view(&self) -> HandshakeErrorModel {
        match self {
            HandshakeError::Rpc(v) => HandshakeErrorModel::Rpc(v.deep_view()),
            HandshakeError::MalformedResult => HandshakeErrorModel::MalformedResult,
            HandshakeError::Metadata(e) => HandshakeErrorModel::Metadata(e.deep_view()),
        }
    }
}

/// What the handshake outcome yields: the call must succeed, its result
/// must be a sequence of at least two elements, and the element at index
/// one must validate as a capability map.
pub open spec fn handshake_spec(outcome: Result<ValueModel, ValueModel>) -> Result<
    MetadataModel,
    HandshakeErrorModel,
> {
    match outcome {
        Err(e) => Err(HandshakeErrorModel::Rpc(e)),
        Ok(m) => match m {
            ValueModel::Array(xs) => if xs.len() >= 2 {
                match crate::metadata::resolve_spec(xs[1]) {
                    Ok(md) => Ok(md),
                    Err(e) => Err(HandshakeErrorModel::Metadata(e)),
                }
            } else {
                Err(HandshakeErrorModel::MalformedResult)
            },
            _ => Err(HandshakeErrorModel::MalformedResult),
        },
    }
}

/// Resolve the handshake call's outcome into session metadata.
pub fn resolve_handshake(outcome: Result<Value, Value>) -> (r: Result<Metadata, HandshakeError>)
    ensures
        match r {
            Ok(md) => handshake_spec(result_model(outcome)) == Ok::<
                MetadataModel,
                HandshakeErrorModel,
            >(md.deep_view()),
            Err(e) => handshake_spec(result_model(outcome)) == Err::<
                MetadataModel,
                HandshakeErrorModel,
            >(e.deep_view()),
        },
{
    let v = match outcome {
        Ok(v) => v,
        Err(e) => {
            return Err(HandshakeError::Rpc(e));
        },
    };
    proof {
        if v matches Value::Array(_) {
            crate::value::lemma_array_model(v);
        }
    }
    let mut xs = match v {
        Value::Array(xs) => xs,
        _ => {
            return Err(HandshakeError::MalformedResult);
        },
    };
    if xs.len() < 2 {
        return Err(HandshakeError::MalformedResult);
    }
    let ghost orig = xs@;
    let info = xs.remove(1);
    proof {
        assert(info == orig[1]);
        assert(values_model(orig)[1] == orig[1].deep_view());
    }
    match Metadata::new(&info) {
        Ok(md) => Ok(md),
        Err(e) => Err(HandshakeError::Metadata(e)),
    }
}

/// The model of a call outcome.
pub open spec fn result_model(outcome: Result<Value, Value>) -> Result<ValueModel, ValueModel> {
    match outcome {
        Ok(v) => Ok(v.deep_view()),
        Err(e) => Err(e.deep_view()),
    }
}

/// Why a call could not be issued.
#[derive(Debug)]
pub enum CallError {
    /// The session is broken: the connection closed or the reader loop
    /// stopped on a protocol error.
    Closed,
    /// Every id has been issued.
    IdsExhausted,
    /// The request envelope could not be encoded.
    Encode(EncodeError),
}

/// What one incoming value came to.
pub enum Inbound<S> {
    /// A response for a pending call: the slot registered under its id,
    /// and the call's outcome — the result on a nil error, the error
    /// value otherwise.
    Response { id: u64, slot: S, outcome: Result<Value, Value> },
    /// A response for an id nobody waits on; dropped, counted.
    StaleResponse { id: u64 },
    /// A request from the peer; this client does not serve requests and
    /// surfaces them distinctly.
    PeerRequest { id: u64, method: String, params: Vec<Value> },
    /// A notification, now in the inbox.
    Notified,
    /// A value that is no envelope at all; dropped.
    Anomaly,
}

/// One live connection to the peer.
pub struct Session<S> {
    /// The handshake's resolved type identifiers, immutable for the
    /// session's lifetime.
    pub metadata: Metadata,
    /// The transport this session runs over.
    pub conn: ConnKind,
    /// Ids and pending calls.
    pub correlator: Correlator<S>,
    /// Notifications await their consumer here, in arrival order but
    /// unordered with respect to responses; they accumulate until
    /// `take_notifications` drains them.
    pub notifications: Vec<(String, Vec<Value>)>,
}

impl<S> Session<S> {
    /// A session over `conn` whose handshake resolved to `metadata`,
    /// with no call issued yet.
    pub fn new(metadata: Metadata, conn: ConnKind) -> (r: Session<S>)
        ensures
            r.correlator.wf(),
            r.metadata == metadata,
            r.conn == conn,
            r.correlator.counter == 0,
            r.correlator.pending@.len() == 0,
            !r.correlator.closed,
            r.correlator.anomalies == 0,
            r.notifications@.len() == 0,
    {
        Session { metadata, conn, correlator: Correlator::new(), notifications: Vec::new() }
    }

    /// Begin a call: issue a fresh id and encode the request envelope
    /// `[0, id, method, params]`. The id is not yet registered — the
    /// caller's slot is parked by `register_call` only once the encoded
    /// bytes were actually written, so a failed call never leaves a slot
    /// behind.
    pub fn begin_call(&mut self, method: String, params: Vec<Value>) -> (r: Result<
        (u64, Vec<u8>),
        CallError,
    >)
        requires
            old(self).correlator.wf(),
        ensures
            final(self).correlator.wf(),
            final(self).metadata == old(self).metadata,
            final(self).conn == old(self).conn,
            final(self).notifications == old(self).notifications,
            old(self).correlator.closed <==> r matches Err(CallError::Closed),
            r matches Err(CallError::Closed) ==> *final(self) == *old(self),
            r matches Err(CallError::IdsExhausted) <==> !old(self).correlator.closed && old(
                self,
            ).correlator.counter == u64::MAX,
            r matches Err(CallError::IdsExhausted) ==> *final(self) == *old(self),
            r matches Ok(p) ==> issue_step(old(self).correlator, final(self).correlator, p.0)
                && p.1@ == msgpack_bytes(
                envelope_value(
                    MessageModel::Request {
                        id: p.0,
                        method: method@,
                        params: values_model(params@),
                    },
                ),
            ),
            r matches Err(CallError::Encode(_)) ==> issue_step(
                old(self).correlator,
                final(self).correlator,
                old(self).correlator.counter,
            ) && !fits_wire(
                envelope_value(
                    MessageModel::Request {
                        id: old(self).correlator.counter,
                        method: method@,
                        params: values_model(params@),
                    },
                ),
            ),
            !old(self).correlator.closed && old(self).correlator.counter < u64::MAX && fits_wire(
                envelope_value(
                    MessageModel::Request {
                        id: old(self).correlator.counter,
                        method: method@,
                        params: values_model(params@),
                    },
                ),
            ) ==> r is Ok,
    {
        if self.correlator.is_closed() {
            return Err(CallError::Closed);
        }
        let id = match self.correlator.next_id() {
            Some(id) => id,
            None => {
                return Err(CallError::IdsExhausted);
            },
        };
        let envelope = RpcMessage::Request { id, method, params }.to_value();
        match encode_value(&envelope) {
            Ok(bytes) => Ok((id, bytes)),
            Err(e) => Err(CallError::Encode(e)),
        }
    }

    /// Park a caller's slot under its id, once the request was written.
    /// The slot comes back when the session broke in the meantime, or
    /// when the id is unexpectedly taken.
    pub fn register_call(&mut self, id: u64, slot: S) -> (r: RegisterOutcome<S>)
        requires
            old(self).correlator.wf(),
        ensures
            final(self).correlator.wf(),
            final(self).metadata == old(self).metadata,
            final(self).conn == old(self).conn,
            final(self).notifications == old(self).notifications,
            old(self).correlator.closed ==> (r matches RegisterOutcome::Closed(s) && s == slot
                && *final(self) == *old(self)),
            !old(self).correlator.closed && slot_in(old(self).correlator.pending@, id) is Some
                ==> (r matches RegisterOutcome::Duplicate(s) && s == slot && *final(self) == *old(
                self,
            )),
            !old(self).correlator.closed && slot_in(old(self).correlator.pending@, id) is None
                ==> (r matches RegisterOutcome::Registered && final(self).correlator.pending@
                == old(self).correlator.pending@.push((id, slot))),
    {
        self.correlator.register(id, slot)
    }

    /// Route one decoded incoming value.
    ///
    /// A response goes to the slot registered under its id, and to no
    /// other: the slot comes back with the call's outcome. A response
    /// for an unknown id is dropped and counted. A notification joins
    /// the inbox. A request from the peer, and any value that is no
    /// envelope, is surfaced without touching the session.
    pub fn on_message(&mut self, v: Value) -> (r: Inbound<S>)
        requires
            old(self).correlator.wf(),
        ensures
            final(self).correlator.wf(),
            final(self).metadata == old(self).metadata,
            final(self).conn == old(self).conn,
            final(self).correlator.closed == old(self).correlator.closed,
            final(self).correlator.counter == old(self).correlator.counter,
            final(self).correlator.issued == old(self).correlator.issued,
            match envelope_spec(v.deep_view()) {
                Some(m) => match m {
                    MessageModel::Response { id, error, result } => {
                        match slot_in(old(self).correlator.pending@, id) {
                            Some(s) => (r matches Inbound::Response { id: rid, slot, outcome }
                                && rid == id && slot == s && final(self).correlator.pending@
                                == crate::correlator::remove_id(old(self).correlator.pending@, id)
                                && (error == ValueModel::Nil ==> (outcome matches Ok(res)
                                && res.deep_view() == result)) && (error != ValueModel::Nil
                                ==> (outcome matches Err(err) && err.deep_view() == error))
                                && final(self).correlator.anomalies == old(
                                self,
                            ).correlator.anomalies && final(self).notifications == old(
                                self,
                            ).notifications),
                            None => (r matches Inbound::StaleResponse { id: rid } && rid == id
                                && final(self).correlator.pending@ == old(
                                self,
                            ).correlator.pending@ && final(self).correlator.anomalies == (
                            if old(self).correlator.anomalies < u64::MAX {
                                old(self).correlator.anomalies + 1
                            } else {
                                old(self).correlator.anomalies as int
                            }) && final(self).notifications == old(self).notifications),
                        }
                    },
                    MessageModel::Notification { method, params } => (r matches Inbound::Notified
                        && final(self).notifications.deep_view() == old(
                        self,
                    ).notifications.deep_view().push((method, params)) && final(self).correlator
                        == old(self).correlator),
                    MessageModel::Request { id, method, params } => (r matches Inbound::PeerRequest
                        { id: rid, method: rmethod, params: rparams } && rid == id && rmethod@
                        == method && values_model(rparams@) == params && *final(self) == *old(
                        self,
                    )),
                },
                None => r matches Inbound::Anomaly && *final(self) == *old(self),
            },
    {
        let msg = match RpcMessage::from_value(v) {
            Ok(msg) => msg,
            Err(_) => {
                return Inbound::Anomaly;
            },
        };
        match msg {
            RpcMessage::Response { id, error, result } => {
                match self.correlator.take(id) {
                    Some(slot) => {
                        let outcome = crate::envelope::response_outcome(error, result);
                        Inbound::Response { id, slot, outcome }
                    },
                    None => Inbound::StaleResponse { id },
                }
            },
            RpcMessage::Notification { method, params } => {
                let ghost before = self.notifications.deep_view();
                self.notifications.push((method, params));
                proof {
                    assert(self.notifications.deep_view() =~= before.push(
                        (method@, values_model(params@)),
                    ));
                }
                Inbound::Notified
            },
            RpcMessage::Request { id, method, params } => {
                Inbound::PeerRequest { id, method, params }
            },
        }
    }

    /// Break the session: no call can be issued or registered afterwards,
    /// and the slot of every call pending at this moment is handed back
    /// so each caller can be failed with a connection-closed error.
    pub fn fail_connection(&mut self) -> (dropped: Vec<(u64, S)>)
        requires
            old(self).correlator.wf(),
        ensures
            final(self).correlator.wf(),
            final(self).correlator.closed,
            final(self).correlator.pending@.len() == 0,
            dropped@ == old(self).correlator.pending@,
            final(self).metadata == old(self).metadata,
            final(self).conn == old(self).conn,
            final(self).notifications == old(self).notifications,
    {
        self.correlator.close()
    }

    /// The resolved handshake metadata.
    pub fn metadata(&self) -> (r: &Metadata)
        ensures
            *r == self.metadata,
    {
        &self.metadata
    }

    /// The peer's network address, when this session runs over one.
    pub fn socket_addr(&self) -> (r: Option<&PeerAddr>)
        ensures
            self.conn matches ConnKind::Tcp(a) ==> r matches Some(p) && *p == a,
            !(self.conn matches ConnKind::Tcp(_)) ==> r is None,
    {
        match &self.conn {
            ConnKind::Tcp(addr) => Some(addr),
            ConnKind::Stdio | ConnKind::Child => None,
        }
    }

    /// Drain the notification inbox, oldest first.
    pub fn take_notifications(&mut self) -> (r: Vec<(String, Vec<Value>)>)
        ensures
            r == old(self).notifications,
            final(self).notifications@.len() == 0,
            final(self).metadata == old(self).metadata,
            final(self).conn == old(self).conn,
            final(self).correlator == old(self).correlator,
    {
        let mut drained: Vec<(String, Vec<Value>)> = Vec::new();
        core::mem::swap(&mut drained, &mut self.notifications);
        drained
    }
}

} // verus!
