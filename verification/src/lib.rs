//! Client/server front-end protocol for a shared input-method engine.
//!
//! The crate holds the verified core of the tool: the wire schema and its
//! JSON form, the byte framer used on both sides of the socket, the
//! readiness poller's delivery queue, the terminal input byte parser and
//! key translator, and the decision logic of the server session and of
//! the client modes.  Everything that touches the operating system
//! (sockets, the tty, signals, the native engine) lives outside, handing
//! this crate plain values and taking plain values back.
use vstd::prelude::*;

pub mod client;
pub mod error;
pub mod event_processor;
pub mod framing;
pub mod input_parser;
pub mod input_translator;
pub mod json_laws;
pub mod json_model;
pub mod json_reader;
pub mod json_request_processor;
pub mod json_mode;
pub mod json_writer;
pub mod key_processor;
pub mod poll_data;
pub mod rime_api;
pub mod server_mode;
pub mod terminal_interface;
pub mod terminal_json_mode;
pub mod terminal_mode;
pub mod text;

use crate::rime_api::{RimeComposition, RimeCompositionV, RimeMenu, RimeMenuV};

verus! {

/// A single method invocation carried by a request.
#[derive(Debug, Clone)]
pub enum Call {
    ProcessKey { keycode: u32, mask: u32 },
    SchemaName,
    ConfigValueInteger { config_id: String, option_key: String },
    ClearComposition,
    StopClient,
    StopServer,
}

/// Ghost form of [`Call`].
pub enum CallV {
    ProcessKey { keycode: u32, mask: u32 },
    SchemaName,
    ConfigValueInteger { config_id: Seq<char>, option_key: Seq<char> },
    ClearComposition,
    StopClient,
    StopServer,
}

impl View for Call {
    type V = CallV;

    open spec fn view(&self) -> CallV {
        match self {
            Call::ProcessKey { keycode, mask } => CallV::ProcessKey {
                keycode: *keycode,
                mask: *mask,
            },
            Call::SchemaName => CallV::SchemaName,
            Call::ConfigValueInteger { config_id, option_key } => CallV::ConfigValueInteger {
                config_id: config_id@,
                option_key: option_key@,
            },
            Call::ClearComposition => CallV::ClearComposition,
            Call::StopClient => CallV::StopClient,
            Call::StopServer => CallV::StopServer,
        }
    }
}

/// What a successful engine interaction did, as reported to the client.
#[derive(Debug, Clone)]
pub enum Effect {
    StopClient,
    StopServer,
    CommitString(String),
    UpdateUi { composition: RimeComposition, menu: RimeMenu },
}

/// Ghost form of [`Effect`].
pub enum EffectV {
    StopClient,
    StopServer,
    CommitString(Seq<char>),
    UpdateUi { composition: RimeCompositionV, menu: RimeMenuV },
}

impl View for Effect {
    type V = EffectV;

    open spec fn view(&self) -> EffectV {
        match self {
            Effect::StopClient => EffectV::StopClient,
            Effect::StopServer => EffectV::StopServer,
            Effect::CommitString(s) => EffectV::CommitString(s@),
            Effect::UpdateUi { composition, menu } => EffectV::UpdateUi {
                composition: composition@,
                menu: menu@,
            },
        }
    }
}

/// The process-wide configuration, read once at startup and immutable for
/// the server's lifetime.
#[derive(Debug, Clone)]
pub struct Config {
    pub unix_socket: String,
    pub user_data_directory: String,
    pub rime_log_level: crate::rime_api::LogLevel,
}

/// Where the unix socket lives, given what the environment offers.
///
/// An explicit `--unix-socket PATH` wins.  Otherwise the socket sits in
/// the XDG runtime directory when one could be created, else in the
/// temporary directory; either way under the name `rimecmd.sock`.
/// The path [`resolve_socket_path`] yields.
pub open spec fn spec_socket_path(
    explicit: Option<Seq<char>>,
    runtime_directory: Option<Seq<char>>,
    temp_directory: Seq<char>,
) -> Seq<char> {
    match explicit {
        Some(p) => p,
        None => match runtime_directory {
            Some(d) => d + "/rimecmd.sock"@,
            None => temp_directory + "/rimecmd.sock"@,
        },
    }
}

pub fn resolve_socket_path(
    explicit: Option<String>,
    runtime_directory: Option<String>,
    temp_directory: String,
) -> (r: String)
    ensures
        r@ == spec_socket_path(
            match explicit {
                Some(p) => Some(p@),
                None => None,
            },
            match runtime_directory {
                Some(d) => Some(d@),
                None => None,
            },
            temp_directory@,
        ),
{
    match explicit {
        Some(p) => p,
        None => {
            match runtime_directory {
                Some(d) => crate::text::str_concat(d.as_str(), "/rimecmd.sock"),
                None => crate::text::str_concat(temp_directory.as_str(), "/rimecmd.sock"),
            }
        },
    }
}

} // verus!
