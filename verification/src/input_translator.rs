//! The mapping from terminal [`Input`] tokens to the engine's X11-style
//! keysym and modifier mask.
//!
//! Printable ASCII characters are their own keysyms in the engine's key
//! table; named keys carry the table's `0xff..` codes.  NUL is bound to
//! Ctrl-` because common terminals send NUL for that combination, and it
//! is the schema-menu toggle.
use vstd::prelude::*;

use crate::terminal_interface::Input;

verus! {

/// An engine keystroke: keysym plus modifier mask.
#[derive(Debug, Clone, Copy, PartialEq, Eq, Structural)]
pub struct RimeKey {
    pub keycode: u32,
    pub mask: u32,
}

/// The modifier mask of the Control key in the engine's modifier table.
pub const CONTROL_MASK: u32 = 4;

/// The keysym each token translates to, or `None` for characters outside
/// the engine's key table.
pub open spec fn spec_translate(input: Input) -> Option<RimeKey> {
    match input {
        Input::Left => Some(RimeKey { keycode: 0xff51, mask: 0 }),
        Input::Up => Some(RimeKey { keycode: 0xff52, mask: 0 }),
        Input::Right => Some(RimeKey { keycode: 0xff53, mask: 0 }),
        Input::Down => Some(RimeKey { keycode: 0xff54, mask: 0 }),
        Input::Home => Some(RimeKey { keycode: 0xff50, mask: 0 }),
        Input::End => Some(RimeKey { keycode: 0xff57, mask: 0 }),
        Input::Delete => Some(RimeKey { keycode: 0xffff, mask: 0 }),
        Input::Insert => Some(RimeKey { keycode: 0xff63, mask: 0 }),
        Input::KeypadEnd => Some(RimeKey { keycode: 0xff9c, mask: 0 }),
        Input::KeypadHome => Some(RimeKey { keycode: 0xff95, mask: 0 }),
        Input::PageDown => Some(RimeKey { keycode: 0xff56, mask: 0 }),
        Input::PageUp => Some(RimeKey { keycode: 0xff55, mask: 0 }),
        Input::Cr => Some(RimeKey { keycode: 0xff0d, mask: 0 }),
        Input::Nul => Some(RimeKey { keycode: 0x60, mask: CONTROL_MASK }),
        Input::Del => Some(RimeKey { keycode: 0xff08, mask: 0 }),
        Input::Bs => Some(RimeKey { keycode: 0xff08, mask: 0 }),
        Input::Ht => Some(RimeKey { keycode: 0xff09, mask: 0 }),
        Input::Lf => Some(RimeKey { keycode: 0xff0a, mask: 0 }),
        Input::Char(c) => {
            if 0x20 <= c as u32 <= 0x7e {
                Some(RimeKey { keycode: c as u32, mask: 0 })
            } else {
                None
            }
        },
        _ => None,
    }
}

/// Translates terminal input tokens to engine keystrokes.
pub struct InputTranslator {}

impl InputTranslator {
    pub fn new() -> (r: Self) {
        Self {  }
    }

    /// Translate one token.  ETX and EOT are never translated: they stop
    /// the client instead, and the caller filters them out first.
    pub fn translate_input(&self, input: Input) -> (r: Option<RimeKey>)
        requires
            !(input is Etx),
            !(input is Eot),
        ensures
            r == spec_translate(input),
    {
        match input {
            Input::Left => Some(RimeKey { keycode: 0xff51, mask: 0 }),
            Input::Up => Some(RimeKey { keycode: 0xff52, mask: 0 }),
            Input::Right => Some(RimeKey { keycode: 0xff53, mask: 0 }),
            Input::Down => Some(RimeKey { keycode: 0xff54, mask: 0 }),
            Input::Home => Some(RimeKey { keycode: 0xff50, mask: 0 }),
            Input::End => Some(RimeKey { keycode: 0xff57, mask: 0 }),
            Input::Delete => Some(RimeKey { keycode: 0xffff, mask: 0 }),
            Input::Insert => Some(RimeKey { keycode: 0xff63, mask: 0 }),
            Input::KeypadEnd => Some(RimeKey { keycode: 0xff9c, mask: 0 }),
            Input::KeypadHome => Some(RimeKey { keycode: 0xff95, mask: 0 }),
            Input::PageDown => Some(RimeKey { keycode: 0xff56, mask: 0 }),
            Input::PageUp => Some(RimeKey { keycode: 0xff55, mask: 0 }),
            Input::Cr => Some(RimeKey { keycode: 0xff0d, mask: 0 }),
            Input::Nul => Some(RimeKey { keycode: 0x60, mask: CONTROL_MASK }),
            Input::Del => Some(RimeKey { keycode: 0xff08, mask: 0 }),
            Input::Bs => Some(RimeKey { keycode: 0xff08, mask: 0 }),
            Input::Ht => Some(RimeKey { keycode: 0xff09, mask: 0 }),
            Input::Lf => Some(RimeKey { keycode: 0xff0a, mask: 0 }),
            Input::Char(c) => {
                let v = c as u32;
                if 0x20 <= v && v <= 0x7e {
                    Some(RimeKey { keycode: v, mask: 0 })
                } else {
                    None
                }
            },
            _ => None,
        }
    }
}

} // verus!
