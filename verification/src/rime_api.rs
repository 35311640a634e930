//! Plain data carried between the native engine and the rest of the tool.
//!
//! The engine itself is an opaque native library and lives outside this
//! crate; these types hold, as plain values, everything the tool reads of
//! its answers: the composition being edited, the candidate menu, the
//! committed text and the session status.
use vstd::prelude::*;

verus! {

/// The pre-commit editable text plus its selection range and cursor offset.
/// All offsets are byte offsets into `preedit`.
#[derive(Debug, Clone)]
pub struct RimeComposition {
    pub length: usize,
    pub cursor_pos: usize,
    pub sel_start: usize,
    pub sel_end: usize,
    pub preedit: String,
}

/// Ghost form of [`RimeComposition`].
pub struct RimeCompositionV {
    pub length: usize,
    pub cursor_pos: usize,
    pub sel_start: usize,
    pub sel_end: usize,
    pub preedit: Seq<char>,
}

impl View for RimeComposition {
    type V = RimeCompositionV;

    open spec fn view(&self) -> RimeCompositionV {
        RimeCompositionV {
            length: self.length,
            cursor_pos: self.cursor_pos,
            sel_start: self.sel_start,
            sel_end: self.sel_end,
            preedit: self.preedit@,
        }
    }
}

impl RimeCompositionV {
    /// The documented invariant on a composition: the selection and the
    /// cursor lie within the preedit, whose byte length is `length`.
    pub open spec fn wf(&self) -> bool {
        &&& self.sel_start <= self.sel_end <= self.length
        &&& self.cursor_pos <= self.length
        &&& self.length == vstd::utf8::encode_utf8(self.preedit).len()
    }
}

/// One entry of the candidate menu.
#[derive(Debug, Clone)]
pub struct RimeCandidate {
    pub text: String,
    pub comment: Option<String>,
}

/// Ghost form of [`RimeCandidate`].
pub struct RimeCandidateV {
    pub text: Seq<char>,
    pub comment: Option<Seq<char>>,
}

impl View for RimeCandidate {
    type V = RimeCandidateV;

    open spec fn view(&self) -> RimeCandidateV {
        RimeCandidateV {
            text: self.text@,
            comment: match self.comment {
                Some(ref c) => Some(c@),
                None => None,
            },
        }
    }
}

/// The candidate list shown for the current composition.
#[derive(Debug, Clone)]
pub struct RimeMenu {
    pub candidates: Vec<RimeCandidate>,
    pub page_no: usize,
    pub highlighted_candidate_index: usize,
    pub is_last_page: bool,
}

/// Ghost form of [`RimeMenu`].
pub struct RimeMenuV {
    pub candidates: Seq<RimeCandidateV>,
    pub page_no: usize,
    pub highlighted_candidate_index: usize,
    pub is_last_page: bool,
}

impl View for RimeMenu {
    type V = RimeMenuV;

    open spec fn view(&self) -> RimeMenuV {
        RimeMenuV {
            candidates: self.candidates@.map_values(|c: RimeCandidate| c@),
            page_no: self.page_no,
            highlighted_candidate_index: self.highlighted_candidate_index,
            is_last_page: self.is_last_page,
        }
    }
}

impl RimeMenuV {
    /// The documented invariant on a menu: when candidates are present, the
    /// highlighted index points at one of them.
    pub open spec fn wf(&self) -> bool {
        self.candidates.len() > 0 ==> self.highlighted_candidate_index < self.candidates.len()
    }
}

/// What the engine reports of the current session state.
#[derive(Debug, Clone)]
pub struct RimeContext {
    pub commit_text_preview: String,
    pub composition: RimeComposition,
    pub menu: RimeMenu,
}

/// The committed text, when a keystroke finished a composition.
#[derive(Debug, Clone)]
pub struct RimeCommit {
    pub text: Option<String>,
}

/// The engine session status.
#[derive(Debug, Clone)]
pub struct RimeStatus {
    pub schema_id: String,
    pub schema_name: String,
    pub is_disabled: bool,
    pub is_composing: bool,
    pub is_ascii_mode: bool,
    pub is_full_shape: bool,
    pub is_simplified: bool,
    pub is_traditional: bool,
    pub is_ascii_punct: bool,
}

/// One entry of the engine's schema list.
#[derive(Debug, Clone)]
pub struct RimeSchema {
    pub schema_id: String,
    pub name: String,
}

/// The lowest level of engine logs written to stderr.
#[derive(Debug, Clone, Copy, PartialEq, Eq, Structural)]
pub enum LogLevel {
    Info,
    Warning,
    Error,
    Fatal,
    Off,
}

} // verus!
