//! The key-event message pair used by message-based front ends: a
//! keystroke in, the commit and preview out.
use vstd::prelude::*;

use crate::rime_api::{RimeCommit, RimeContext};

verus! {

/// One keystroke, as a message.
#[derive(Debug, Clone, Copy, PartialEq, Eq, Structural)]
pub struct KeyEventMessage {
    pub keycode: u32,
    pub mask: u32,
}

/// What a keystroke changed: the committed text, if any, and the preview
/// of what would be committed.
#[derive(Debug, Clone)]
pub struct UpdateMessage {
    pub commit_text: Option<String>,
    pub preview_text: String,
}

impl UpdateMessage {
    /// The message for what the engine answered after a keystroke.
    pub fn new(rime_commit: RimeCommit, rime_context: RimeContext) -> (r: UpdateMessage)
        ensures
            ({
                let tied = match (r.commit_text, rime_commit.text) {
                    (Some(a), Some(b)) => a@ == b@,
                    (None, None) => true,
                    _ => false,
                };
                tied && r.preview_text@ == rime_context.commit_text_preview@
            }),
    {
        UpdateMessage {
            commit_text: rime_commit.text,
            preview_text: rime_context.commit_text_preview,
        }
    }
}

} // verus!
