//! The request/reply schema and the dispatch of one request.
//!
//! The engine itself lives outside this crate, so dispatch is split in
//! two verified halves: [`query_for_call`] says what the engine must be
//! asked for a given call, and the `reply_for_*` builders turn the
//! engine's answer into the reply, echoing the request id.
use vstd::prelude::*;

use crate::error::Error;
use crate::rime_api::{RimeCommit, RimeContext, RimeStatus};
use crate::{Call, CallV, Effect, EffectV};

verus! {

/// One request as carried on the wire: a client-chosen correlation id and
/// the call to perform.
#[derive(Debug, Clone)]
pub struct Request {
    pub id: String,
    pub call: Call,
}

/// Ghost form of [`Request`].
pub struct RequestV {
    pub id: Seq<char>,
    pub call: CallV,
}

impl View for Request {
    type V = RequestV;

    open spec fn view(&self) -> RequestV {
        RequestV { id: self.id@, call: self.call@ }
    }
}

/// One reply as carried on the wire.
///
/// `id` is `None` when the reply answers input that never became a
/// well-formed request; otherwise it echoes the id of the request this
/// reply is for.
#[derive(Debug, Clone)]
pub struct Reply {
    pub id: Option<String>,
    pub outcome: Outcome,
}

/// Ghost form of [`Reply`].
pub struct ReplyV {
    pub id: Option<Seq<char>>,
    pub outcome: OutcomeV,
}

impl View for Reply {
    type V = ReplyV;

    open spec fn view(&self) -> ReplyV {
        ReplyV {
            id: match self.id {
                Some(ref s) => Some(s@),
                None => None,
            },
            outcome: self.outcome@,
        }
    }
}

/// What a reply reports: an engine effect, a protocol-level error, or the
/// value a read-only call asked for.
#[derive(Debug, Clone)]
pub enum Outcome {
    Effect(Effect),
    Error { id: ErrorId, message: String },
    SchemaName(String),
    ConfigValueInteger(i64),
}

/// Ghost form of [`Outcome`].
pub enum OutcomeV {
    Effect(EffectV),
    Error { id: ErrorId, message: Seq<char> },
    SchemaName(Seq<char>),
    ConfigValueInteger(i64),
}

impl View for Outcome {
    type V = OutcomeV;

    open spec fn view(&self) -> OutcomeV {
        match self {
            Outcome::Effect(e) => OutcomeV::Effect(e@),
            Outcome::Error { id, message } => OutcomeV::Error { id: *id, message: message@ },
            Outcome::SchemaName(s) => OutcomeV::SchemaName(s@),
            Outcome::ConfigValueInteger(v) => OutcomeV::ConfigValueInteger(*v),
        }
    }
}

/// The closed set of protocol-level error identifiers.
#[derive(Debug, Clone, Copy, PartialEq, Eq, Structural)]
pub enum ErrorId {
    UnsupportedInput,
    MoreThanOneClient,
    JsonError,
    IoError,
    OptionNotFound,
    ConfigNotFound,
}

/// What the engine must be asked to serve one call.
#[derive(Debug, Clone)]
pub enum EngineQuery {
    /// Feed the keystroke, then fetch the commit and the context.
    Key { keycode: u32, mask: u32 },
    /// Fetch the session status.
    Status,
    /// Look up an integer config value.
    Config { config_id: String, option_key: String },
    /// Clear the composition, then fetch the context.
    Clear,
    /// No engine interaction at all.
    Nothing,
}

/// What the engine must be asked to serve `call`.
pub fn query_for_call(call: &Call) -> (q: EngineQuery)
    ensures
        call is ProcessKey ==> (q matches EngineQuery::Key { keycode, mask }
            && call@ == (CallV::ProcessKey { keycode, mask })),
        call is SchemaName ==> q is Status,
        call matches Call::ConfigValueInteger { config_id, option_key } ==> (q matches
            EngineQuery::Config { config_id: c, option_key: o } && c@ == config_id@ && o@
            == option_key@),
        call is ClearComposition ==> q is Clear,
        call is StopClient ==> q is Nothing,
        call is StopServer ==> q is Nothing,
{
    match call {
        Call::ProcessKey { keycode, mask } => EngineQuery::Key {
            keycode: *keycode,
            mask: *mask,
        },
        Call::SchemaName => EngineQuery::Status,
        Call::ConfigValueInteger { config_id, option_key } => EngineQuery::Config {
            config_id: config_id.clone(),
            option_key: option_key.clone(),
        },
        Call::ClearComposition => EngineQuery::Clear,
        Call::StopClient => EngineQuery::Nothing,
        Call::StopServer => EngineQuery::Nothing,
    }
}

/// The reply to a `process_key` call, given what the engine answered: a
/// commit when one was produced, otherwise the refreshed UI state.
pub fn reply_for_process_key(id: String, commit: RimeCommit, context: RimeContext) -> (r: Reply)
    ensures
        r@.id == Some(id@),
        commit.text matches Some(s) ==> r@.outcome == OutcomeV::Effect(
            EffectV::CommitString(s@),
        ),
        commit.text is None ==> r@.outcome == OutcomeV::Effect(
            EffectV::UpdateUi { composition: context.composition@, menu: context.menu@ },
        ),
{
    match commit.text {
        Some(s) => Reply { id: Some(id), outcome: Outcome::Effect(Effect::CommitString(s)) },
        None => Reply {
            id: Some(id),
            outcome: Outcome::Effect(
                Effect::UpdateUi { composition: context.composition, menu: context.menu },
            ),
        },
    }
}

/// The reply to a `schema_name` call: the display name out of the status.
pub fn reply_for_schema_name(id: String, status: RimeStatus) -> (r: Reply)
    ensures
        r@.id == Some(id@),
        r@.outcome == OutcomeV::SchemaName(status.schema_name@),
{
    Reply { id: Some(id), outcome: Outcome::SchemaName(status.schema_name) }
}

/// The reply to a `config_value_integer` call.  A missing config or option
/// is a client-visible error outcome; like every protocol-level error
/// reply, it drops the correlation id and answers with a null id.
pub fn reply_for_config_value(id: String, value: Result<i64, Error>) -> (r: Reply)
    requires
        value matches Err(e) ==> (e is ConfigNotFound || e is OptionNotFound),
    ensures
        value matches Ok(v) ==> (r@.id == Some(id@) && r@.outcome == OutcomeV::ConfigValueInteger(
            v,
        )),
        value matches Err(e) ==> (r@.id is None && r@.outcome == e.spec_outcome()),
{
    match value {
        Ok(v) => Reply { id: Some(id), outcome: Outcome::ConfigValueInteger(v) },
        Err(e) => {
            let outcome = e.to_outcome();
            match outcome {
                Some(o) => Reply { id: None, outcome: o },
                None => {
                    // unreachable under the precondition
                    proof {
                        assert(false);
                    }
                    Reply { id: None, outcome: Outcome::ConfigValueInteger(0) }
                },
            }
        },
    }
}

/// The reply to a `clear_composition` call: the refreshed UI state.
pub fn reply_for_clear_composition(id: String, context: RimeContext) -> (r: Reply)
    ensures
        r@.id == Some(id@),
        r@.outcome == OutcomeV::Effect(
            EffectV::UpdateUi { composition: context.composition@, menu: context.menu@ },
        ),
{
    Reply {
        id: Some(id),
        outcome: Outcome::Effect(
            Effect::UpdateUi { composition: context.composition, menu: context.menu },
        ),
    }
}

/// The reply to a `stop_client` call.
pub fn reply_for_stop_client(id: String) -> (r: Reply)
    ensures
        r@.id == Some(id@),
        r@.outcome == OutcomeV::Effect(EffectV::StopClient),
{
    Reply { id: Some(id), outcome: Outcome::Effect(Effect::StopClient) }
}

/// The reply to a `stop_server` call, before arbitration (see
/// `server_mode`): the effect is provisional until the client count allows
/// it.
pub fn reply_for_stop_server(id: String) -> (r: Reply)
    ensures
        r@.id == Some(id@),
        r@.outcome == OutcomeV::Effect(EffectV::StopServer),
{
    Reply { id: Some(id), outcome: Outcome::Effect(Effect::StopServer) }
}

} // verus!
