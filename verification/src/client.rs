//! The client's side of the socket: reassembling replies out of the byte
//! stream the server sends.
use vstd::prelude::*;

use crate::error::Error;
use crate::framing::{spec_drain, ByteToChars};
use crate::json_model::{p_reply, PRes};
use crate::json_reader::{p_reply_exec, JErr};
use crate::json_request_processor::Reply;

verus! {

/// What the accumulated bytes hold so far.
#[derive(Debug)]
pub enum ReplyState {
    Complete(Reply),
    Incomplete,
}

/// Reassembles whole replies from whatever the socket delivers: bytes are
/// decoded incrementally, and the char buffer is tried as one JSON value.
pub struct ReplyFramer {
    pub dec: ByteToChars,
}

impl ReplyFramer {
    pub fn new() -> (r: Self)
        ensures
            r.dec.chars@ == Seq::<char>::empty(),
            r.dec.pending@ == Seq::<u8>::empty(),
    {
        ReplyFramer { dec: ByteToChars::new() }
    }

    /// Take in newly received bytes; invalid UTF-8 is a protocol error
    /// and clears the buffer.
    pub fn feed(&mut self, bytes: &[u8]) -> (r: Result<(), Error>)
        ensures
            ({
                let d = spec_drain(old(self).dec.chars@, old(self).dec.pending@ + bytes@);
                &&& (r is Ok <==> d.ok)
                &&& final(self).dec.chars@ == d.chars
                &&& final(self).dec.pending@ == d.pending
                &&& r matches Err(e) ==> e is Json
            }),
    {
        match self.dec.feed(bytes) {
            Ok(()) => Ok(()),
            Err(()) => Err(Error::Json("invalid UTF-8 in stream".to_owned())),
        }
    }

    /// Try the buffer as one reply.  A complete value is handed out and
    /// its text dropped from the buffer; a value still missing its tail
    /// waits; anything else is a protocol error that clears the buffer.
    pub fn next(&mut self) -> (r: Result<ReplyState, Error>)
        ensures
            p_reply(old(self).dec.chars@, 0) matches PRes::Parsed(v, j) ==> (r matches Ok(
                ReplyState::Complete(reply),
            ) && reply@ == v && final(self).dec.chars@ == old(self).dec.chars@.skip(j) && final(self).dec.pending@ == old(self).dec.pending@),
            p_reply(old(self).dec.chars@, 0) is Incomplete ==> (r matches Ok(
                ReplyState::Incomplete,
            ) && final(self).dec.chars@ == old(self).dec.chars@ && final(self).dec.pending@ == old(self).dec.pending@),
            p_reply(old(self).dec.chars@, 0) is Fail ==> (r matches Err(e) && e is Json && final(self).dec.chars@ == Seq::<char>::empty() && final(self).dec.pending@ == Seq::<
                u8,
            >::empty()),
    {
        match p_reply_exec(&self.dec.chars, 0) {
            Ok((reply, j)) => {
                let ghost cs = self.dec.chars@;
                let n = self.dec.chars.len();
                let mut rest: Vec<char> = Vec::new();
                let mut k = j;
                while k < n
                    invariant
                        j <= k <= n,
                        n == self.dec.chars@.len(),
                        self.dec.chars@ == cs,
                        self.dec.pending@ == old(self).dec.pending@,
                        rest@ == cs.subrange(j as int, k as int),
                    decreases n - k,
                {
                    rest.push(self.dec.chars[k]);
                    assert(rest@ =~= cs.subrange(j as int, k + 1));
                    k = k + 1;
                }
                proof {
                    assert(rest@ =~= cs.skip(j as int));
                }
                self.dec.chars = rest;
                Ok(ReplyState::Complete(reply))
            },
            Err(JErr::Incomplete) => Ok(ReplyState::Incomplete),
            Err(JErr::Fail) => {
                self.dec.chars = Vec::new();
                self.dec.pending = Vec::new();
                assert(self.dec.chars@ =~= Seq::<char>::empty());
                assert(self.dec.pending@ =~= Seq::<u8>::empty());
                Err(Error::Json("malformed reply in stream".to_owned()))
            },
        }
    }
}

} // verus!
