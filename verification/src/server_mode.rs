//! The server's per-connection protocol: reassembling requests out of the
//! byte stream, and deciding what to do with each reply — in particular
//! the stop arbitration, where the last client wins.
use vstd::prelude::*;

use crate::error::Error;
use crate::framing::{spec_drain, ByteToChars};
use crate::json_model::{p_request, PRes};
use crate::json_reader::{p_request_exec, JErr};
use crate::json_request_processor::{ErrorId, Outcome, OutcomeV, Reply, ReplyV, Request};

verus! {

/// Reassembles whole requests from whatever a client sends.
pub struct RequestFramer {
    pub dec: ByteToChars,
}

/// What the accumulated bytes hold so far.
#[derive(Debug)]
pub enum RequestState {
    Complete(Request),
    Incomplete,
}

impl RequestFramer {
    pub fn new() -> (r: Self)
        ensures
            r.dec.chars@ == Seq::<char>::empty(),
            r.dec.pending@ == Seq::<u8>::empty(),
    {
        RequestFramer { dec: ByteToChars::new() }
    }

    /// Take in newly received bytes; invalid UTF-8 is a protocol error
    /// and clears the buffer.
    pub fn feed(&mut self, bytes: &[u8]) -> (r: Result<(), Error>)
        ensures
            ({
                let d = spec_drain(old(self).dec.chars@, old(self).dec.pending@ + bytes@);
                &&& (r is Ok <==> d.ok)
                &&& final(self).dec.chars@ == d.chars
                &&& final(self).dec.pending@ == d.pending
                &&& r matches Err(e) ==> e is Json
            }),
    {
        match self.dec.feed(bytes) {
            Ok(()) => Ok(()),
            Err(()) => Err(Error::Json("invalid UTF-8 in stream".to_owned())),
        }
    }

    /// Try the buffer as one request.  A complete value is handed out and
    /// its text dropped from the buffer; a value still missing its tail
    /// waits; anything else is a protocol error that clears the buffer.
    pub fn next(&mut self) -> (r: Result<RequestState, Error>)
        ensures
            p_request(old(self).dec.chars@, 0) matches PRes::Parsed(v, j) ==> (r matches Ok(
                RequestState::Complete(request),
            ) && request@ == v && final(self).dec.chars@ == old(self).dec.chars@.skip(j) && final(self).dec.pending@ == old(self).dec.pending@),
            p_request(old(self).dec.chars@, 0) is Incomplete ==> (r matches Ok(
                RequestState::Incomplete,
            ) && final(self).dec.chars@ == old(self).dec.chars@ && final(self).dec.pending@ == old(self).dec.pending@),
            p_request(old(self).dec.chars@, 0) is Fail ==> (r matches Err(e) && e is Json && final(self).dec.chars@ == Seq::<char>::empty() && final(self).dec.pending@ == Seq::<
                u8,
            >::empty()),
    {
        match p_request_exec(&self.dec.chars, 0) {
            Ok((request, j)) => {
                let ghost cs = self.dec.chars@;
                let n = self.dec.chars.len();
                let mut rest: Vec<char> = Vec::new();
                let mut k = j;
                while k < n
                    invariant
                        j <= k <= n,
                        n == self.dec.chars@.len(),
                        self.dec.chars@ == cs,
                        self.dec.pending@ == old(self).dec.pending@,
                        rest@ == cs.subrange(j as int, k as int),
                    decreases n - k,
                {
                    rest.push(self.dec.chars[k]);
                    assert(rest@ =~= cs.subrange(j as int, k + 1));
                    k = k + 1;
                }
                proof {
                    assert(rest@ =~= cs.skip(j as int));
                }
                self.dec.chars = rest;
                Ok(RequestState::Complete(request))
            },
            Err(JErr::Incomplete) => Ok(RequestState::Incomplete),
            Err(JErr::Fail) => {
                self.dec.chars = Vec::new();
                self.dec.pending = Vec::new();
                assert(self.dec.chars@ =~= Seq::<char>::empty());
                assert(self.dec.pending@ =~= Seq::<u8>::empty());
                Err(Error::Json("malformed request in stream".to_owned()))
            },
        }
    }
}

/// What the worker does with a finished reply.
#[derive(Debug)]
pub enum SessionDisposition {
    /// Write the reply and keep serving this client.
    SendAndContinue(Reply),
    /// Write the reply, then expect the peer to close; the worker exits.
    SendAndExpectClose(Reply),
    /// Write the refusal carried here and keep serving; the server stays.
    SendRefusal(Reply),
    /// Write the reply, expect the peer to close, then stop the server.
    SendAndStopServer(Reply),
}

/// The stop arbitration, taken at the moment the reply is assembled.
///
/// `stop_client` is always honored.  `stop_server` is granted only to
/// the sole client; with anyone else connected, the peer gets a
/// `more_than_one_client` error carrying the original request id, and
/// the server does not stop.
pub fn arbitrate_reply(reply: Reply, client_count: usize) -> (d: SessionDisposition)
    ensures
        (reply@.outcome matches OutcomeV::Effect(e) && e is StopClient) ==> (d matches
            SessionDisposition::SendAndExpectClose(r) && r@ == reply@),
        (reply@.outcome matches OutcomeV::Effect(e) && e is StopServer && client_count == 1)
            ==> (d matches SessionDisposition::SendAndStopServer(r) && r@ == reply@),
        (reply@.outcome matches OutcomeV::Effect(e) && e is StopServer && client_count != 1)
            ==> (d matches SessionDisposition::SendRefusal(r) && r@.id == reply@.id && r@.outcome
            == (OutcomeV::Error {
            id: ErrorId::MoreThanOneClient,
            message: Error::MoreThanOneClient.spec_message(),
        })),
        !(reply@.outcome matches OutcomeV::Effect(e) && (e is StopClient || e is StopServer))
            ==> (d matches SessionDisposition::SendAndContinue(r) && r@ == reply@),
        !(d is SendAndStopServer) ==> (client_count != 1 || !(reply@.outcome matches
            OutcomeV::Effect(e) && e is StopServer)),
{
    match &reply.outcome {
        Outcome::Effect(crate::Effect::StopClient) => SessionDisposition::SendAndExpectClose(
            reply,
        ),
        Outcome::Effect(crate::Effect::StopServer) => {
            if client_count == 1 {
                SessionDisposition::SendAndStopServer(reply)
            } else {
                let refusal = Reply {
                    id: reply.id.clone(),
                    outcome: Outcome::Error {
                        id: ErrorId::MoreThanOneClient,
                        message: Error::MoreThanOneClient.message(),
                    },
                };
                SessionDisposition::SendRefusal(refusal)
            }
        },
        _ => SessionDisposition::SendAndContinue(reply),
    }
}

/// The end-of-session handshake: after a terminal reply the worker makes
/// one more read.  A clean end of input is success; another request, or
/// any other error, is a protocol violation.
pub fn close_handshake_outcome(read: Result<Request, Error>) -> (r: Result<(), Error>)
    ensures
        read is Ok ==> (r matches Err(e2) && e2 is ClientShouldCloseConnection),
        read matches Err(e) ==> (if e is InputClosed {
            r is Ok
        } else {
            r matches Err(e2) && e2 == e
        }),
{
    match read {
        Err(Error::InputClosed) => Ok(()),
        Ok(_) => Err(Error::ClientShouldCloseConnection),
        Err(e) => Err(e),
    }
}

/// The reply for input that never became a well-formed request: protocol
/// errors answer with a null id; anything else is fatal for this worker.
pub fn error_reply(e: &Error) -> (r: Option<Reply>)
    ensures
        r is Some <==> e.spec_has_outcome(),
        r matches Some(rep) ==> (rep@.id is None && rep@.outcome == e.spec_outcome()),
{
    match e.to_outcome() {
        Some(outcome) => Some(Reply { id: None, outcome }),
        None => None,
    }
}

/// How the server reacts to the socket path already existing at startup.
#[derive(Debug, Clone, Copy, PartialEq, Eq, Structural)]
pub enum BindDecision {
    /// Bind directly; nothing is in the way.
    Bind,
    /// Remove the stale file, then bind.
    RemoveThenBind,
    /// Refuse to start: another server may own the socket.
    RefuseAlreadyExists,
}

/// A normal start refuses an existing socket path; `--force-start-server`
/// reclaims it.
pub fn bind_decision(path_exists: bool, force_start: bool) -> (d: BindDecision)
    ensures
        !path_exists ==> d == BindDecision::Bind,
        path_exists && force_start ==> d == BindDecision::RemoveThenBind,
        path_exists && !force_start ==> d == BindDecision::RefuseAlreadyExists,
{
    if !path_exists {
        BindDecision::Bind
    } else if force_start {
        BindDecision::RemoveThenBind
    } else {
        BindDecision::RefuseAlreadyExists
    }
}

} // verus!
