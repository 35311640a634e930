//! The combined terminal and JSON mode: terminal keys become requests,
//! stdin bytes are forwarded opaquely, and every reply is echoed on
//! stdout as well as rendered on the terminal.
use vstd::prelude::*;

use crate::json_model::{ser_reply, ser_request};
use crate::json_request_processor::{OutcomeV, Reply, Request};
use crate::json_writer::{serialize_reply_string, serialize_request_bytes};
use crate::rime_api::{RimeComposition, RimeMenu};

verus! {

/// One event of the mode's fused input stream.
#[derive(Debug)]
pub enum Data {
    TerminalRequest(Request),
    StdinBytes(Vec<u8>),
    ServerBytes(Vec<u8>),
}

/// What the mode forwards to the server for one event, if anything: a
/// terminal request is serialized, stdin bytes go through untouched, and
/// server bytes are not forwarded (they feed the reply framer instead).
pub fn forward_bytes(data: Data) -> (r: Option<Vec<u8>>)
    ensures
        data matches Data::TerminalRequest(req) ==> (r matches Some(b) && b@
            == vstd::utf8::encode_utf8(ser_request(req@))),
        data matches Data::StdinBytes(bytes) ==> (r matches Some(b) && b@ == bytes@),
        data is ServerBytes ==> r is None,
{
    match data {
        Data::TerminalRequest(req) => Some(serialize_request_bytes(&req)),
        Data::StdinBytes(bytes) => Some(bytes),
        Data::ServerBytes(_) => None,
    }
}

/// What the terminal side does with a reply, after its text has been
/// echoed on stdout.
#[derive(Debug)]
pub enum UiAction {
    /// A commit ends the session: close the terminal, then leave.
    CloseAndExit { text: String },
    /// A commit under `--continue`: erase the UI, emit, redraw the
    /// prompt.
    EmitBetweenUi { text: String },
    /// Redraw the composition and menu.
    Redraw { text: String, composition: RimeComposition, menu: RimeMenu },
    /// A stop effect: emit, shut the connection, close the terminal.
    StopAndExit { text: String },
    /// Anything else is only echoed.
    EmitOnly { text: String },
}

/// The decision for one complete reply.
pub fn reply_ui_action(reply: Reply, continue_mode: bool) -> (a: UiAction)
    ensures
        ({
            match reply@.outcome {
                OutcomeV::Effect(e) => match e {
                    crate::EffectV::CommitString(_) => {
                        if continue_mode {
                            a matches UiAction::EmitBetweenUi { text } && text@ == ser_reply(
                                reply@,
                            )
                        } else {
                            a matches UiAction::CloseAndExit { text } && text@ == ser_reply(
                                reply@,
                            )
                        }
                    },
                    crate::EffectV::UpdateUi { composition, menu } => {
                        a matches UiAction::Redraw { text, composition: c2, menu: m2 } && text@
                            == ser_reply(reply@) && c2@ == composition && m2@ == menu
                    },
                    crate::EffectV::StopClient => {
                        a matches UiAction::StopAndExit { text } && text@ == ser_reply(reply@)
                    },
                    crate::EffectV::StopServer => {
                        a matches UiAction::StopAndExit { text } && text@ == ser_reply(reply@)
                    },
                },
                _ => a matches UiAction::EmitOnly { text } && text@ == ser_reply(reply@),
            }
        }),
{
    let text = serialize_reply_string(&reply);
    match reply.outcome {
        crate::json_request_processor::Outcome::Effect(crate::Effect::CommitString(_)) => {
            if continue_mode {
                UiAction::EmitBetweenUi { text }
            } else {
                UiAction::CloseAndExit { text }
            }
        },
        crate::json_request_processor::Outcome::Effect(
            crate::Effect::UpdateUi { composition, menu },
        ) => UiAction::Redraw { text, composition, menu },
        crate::json_request_processor::Outcome::Effect(crate::Effect::StopClient) => {
            UiAction::StopAndExit { text }
        },
        crate::json_request_processor::Outcome::Effect(crate::Effect::StopServer) => {
            UiAction::StopAndExit { text }
        },
        _ => UiAction::EmitOnly { text },
    }
}

} // verus!
