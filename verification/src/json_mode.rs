//! The JSON mode: stdin bytes go to the server untouched, replies are
//! echoed to stdout, and certain replies end the session.
use vstd::prelude::*;

use crate::client::ReplyState;
use crate::json_model::ser_reply;
use crate::json_request_processor::{OutcomeV, Reply};
use crate::json_writer::serialize_reply_string;

verus! {

/// Bytes read from one of the mode's two sources.
#[derive(Debug)]
pub enum Bytes {
    StdinBytes(Vec<u8>),
    ServerBytes(Vec<u8>),
}

/// One event of the mode's fused input stream.
#[derive(Debug)]
pub enum Input {
    Stdin(Vec<u8>),
    ServerReply(ReplyState),
}

/// Whether this reply ends the mode: stop effects always do, a commit
/// does unless `--continue` was given.
pub open spec fn spec_reply_exits(outcome: OutcomeV, continue_mode: bool) -> bool {
    match outcome {
        OutcomeV::Effect(e) => match e {
            crate::EffectV::StopClient => true,
            crate::EffectV::StopServer => true,
            crate::EffectV::CommitString(_) => !continue_mode,
            _ => false,
        },
        _ => false,
    }
}

/// What the mode does next.
#[derive(Debug)]
pub enum JsonModeAction {
    /// Forward these bytes to the server, unparsed.
    ForwardToServer(Vec<u8>),
    /// Write this text to stdout; exit afterwards when `exit` holds.
    Emit { text: String, exit: bool },
    /// Nothing yet: a reply is still incomplete.
    Wait,
}

/// The decision for one event.
pub fn handle_input(input: Input, continue_mode: bool) -> (a: JsonModeAction)
    ensures
        input matches Input::Stdin(bytes) ==> (a matches JsonModeAction::ForwardToServer(b)
            && b@ == bytes@),
        input matches Input::ServerReply(ReplyState::Complete(reply)) ==> (a matches
            JsonModeAction::Emit { text, exit } && text@ == ser_reply(reply@) && exit
            == spec_reply_exits(reply@.outcome, continue_mode)),
        input matches Input::ServerReply(ReplyState::Incomplete) ==> a is Wait,
{
    match input {
        Input::Stdin(bytes) => JsonModeAction::ForwardToServer(bytes),
        Input::ServerReply(ReplyState::Complete(reply)) => {
            let text = serialize_reply_string(&reply);
            let exit = reply_exits(&reply, continue_mode);
            JsonModeAction::Emit { text, exit }
        },
        Input::ServerReply(ReplyState::Incomplete) => JsonModeAction::Wait,
    }
}

/// Whether this reply ends the mode.
pub fn reply_exits(reply: &Reply, continue_mode: bool) -> (r: bool)
    ensures
        r == spec_reply_exits(reply@.outcome, continue_mode),
{
    match &reply.outcome {
        crate::json_request_processor::Outcome::Effect(crate::Effect::StopClient) => true,
        crate::json_request_processor::Outcome::Effect(crate::Effect::StopServer) => true,
        crate::json_request_processor::Outcome::Effect(crate::Effect::CommitString(_)) => {
            !continue_mode
        },
        _ => false,
    }
}

} // verus!
