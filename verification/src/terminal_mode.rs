//! The terminal mode: each key becomes one request, and each reply is a
//! commit to print, a redraw, or the end of the session.
use vstd::prelude::*;

use crate::json_model::ser_request;
use crate::json_request_processor::{Outcome, OutcomeV, Reply, Request, RequestV};
use crate::json_writer::serialize_request_bytes;
use crate::rime_api::{RimeComposition, RimeMenu};
use crate::{Call, Effect};

verus! {

/// Relies on `uuid::Uuid::new_v4` and its `String` conversion: a fresh
/// random identifier rendered in the 36-char hyphenated form.  Nothing
/// beyond its length is assumed: the value is random.
#[verifier::external_body]
pub fn fresh_request_id() -> (r: String)
    ensures
        r@.len() == 36,
{
    String::from(uuid::Uuid::new_v4())
}

/// The wire bytes of one terminal-originated request, under a fresh id.
pub fn request_bytes_for_call(call: Call, id: String) -> (r: Vec<u8>)
    ensures
        r@ == vstd::utf8::encode_utf8(ser_request(RequestV { id: id@, call: call@ })),
{
    let request = Request { id, call };
    serialize_request_bytes(&request)
}

/// What the terminal does with a reply.
#[derive(Debug)]
pub enum TerminalAction {
    /// Erase the UI, print the committed text on stdout; leave unless
    /// `--continue` keeps the session open, in which case redraw the
    /// prompt.
    PrintCommit { text: String, exit: bool },
    /// Redraw the composition and menu.
    Redraw { composition: RimeComposition, menu: RimeMenu },
    /// The session is over.
    Exit,
    /// Nothing to do for this reply.
    Ignore,
}

/// The decision for one reply.
pub fn reply_action(reply: Reply, continue_mode: bool) -> (a: TerminalAction)
    ensures
        ({
            match reply@.outcome {
                OutcomeV::Effect(e) => match e {
                    crate::EffectV::CommitString(t) => a matches TerminalAction::PrintCommit {
                        text,
                        exit,
                    } && text@ == t && exit == !continue_mode,
                    crate::EffectV::UpdateUi { composition, menu } => a matches
                        TerminalAction::Redraw { composition: c2, menu: m2 } && c2@ == composition
                        && m2@ == menu,
                    crate::EffectV::StopClient => a is Exit,
                    crate::EffectV::StopServer => a is Ignore,
                },
                _ => a is Ignore,
            }
        }),
{
    match reply.outcome {
        Outcome::Effect(Effect::CommitString(text)) => TerminalAction::PrintCommit {
            text,
            exit: !continue_mode,
        },
        Outcome::Effect(Effect::UpdateUi { composition, menu }) => TerminalAction::Redraw {
            composition,
            menu,
        },
        Outcome::Effect(Effect::StopClient) => TerminalAction::Exit,
        _ => TerminalAction::Ignore,
    }
}

} // verus!
