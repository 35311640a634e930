//! The decision taken after a keystroke has been fed to the engine: hand
//! the committed text out, or redraw the composition and menu.
use vstd::prelude::*;

use crate::rime_api::{RimeCommit, RimeCompositionV, RimeContext, RimeMenuV};

verus! {

/// What a processed keystroke asks the front end to do.
#[derive(Debug, Clone)]
pub enum Action {
    CommitString(String),
    UpdateUi { composition: crate::rime_api::RimeComposition, menu: crate::rime_api::RimeMenu },
}

/// Ghost form of [`Action`].
pub enum ActionV {
    CommitString(Seq<char>),
    UpdateUi { composition: RimeCompositionV, menu: RimeMenuV },
}

impl View for Action {
    type V = ActionV;

    open spec fn view(&self) -> ActionV {
        match self {
            Action::CommitString(s) => ActionV::CommitString(s@),
            Action::UpdateUi { composition, menu } => ActionV::UpdateUi {
                composition: composition@,
                menu: menu@,
            },
        }
    }
}

/// Turns what the engine answered after a keystroke into an [`Action`].
pub struct KeyProcessor {}

impl KeyProcessor {
    pub fn new() -> (r: Self) {
        Self {  }
    }

    /// The keystroke has already been fed to the engine; `commit` and
    /// `context` are what it answered.  A commit, when present, wins over
    /// a redraw.
    pub fn process_key(&self, commit: RimeCommit, context: RimeContext) -> (r: Action)
        ensures
            commit.text matches Some(s) ==> r@ == ActionV::CommitString(s@),
            commit.text is None ==> r@ == (ActionV::UpdateUi {
                composition: context.composition@,
                menu: context.menu@,
            }),
    {
        match commit.text {
            Some(s) => Action::CommitString(s),
            None => Action::UpdateUi { composition: context.composition, menu: context.menu },
        }
    }
}

} // verus!
