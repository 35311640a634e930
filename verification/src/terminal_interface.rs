//! The terminal-facing state: input tokens, the replay buffer used while a
//! cursor-position query is in flight, and the raw-mode snapshot guard.
use vstd::prelude::*;

verus! {

/// One token produced from the raw bytes the terminal sends.
#[derive(Debug, Clone, Copy, PartialEq, Eq, Structural)]
pub enum Input {
    Up,
    Down,
    Left,
    Right,
    Home,
    End,
    KeypadHome,
    Insert,
    Delete,
    KeypadEnd,
    PageUp,
    PageDown,
    Char(char),
    Cr,
    Del,
    Nul,
    Etx,
    Eot,
    Bs,
    Ht,
    Lf,
    CursorPositionReport { row: usize, col: usize },
}


/// The terminal driver's verified state: the raw-mode snapshot taken at
/// `open`, and the tokens held back while a cursor-position query is in
/// flight.
///
/// The snapshot type is opaque to this crate; the driver outside hands
/// one in at `open` and gets exactly the same one back at `close`,
/// whatever happened in between.
pub struct TerminalInterface<T> {
    pub original_mode: Option<T>,
    pub input_buffer: Vec<Input>,
}

impl<T> TerminalInterface<T> {
    pub fn new() -> (r: Self)
        ensures
            r.original_mode is None,
            r.input_buffer@ == Seq::<Input>::empty(),
    {
        TerminalInterface { original_mode: None, input_buffer: Vec::new() }
    }

    /// Enter raw mode, keeping the termios snapshot taken just before.
    pub fn open(&mut self, snapshot: T)
        requires
            old(self).original_mode is None,
        ensures
            final(self).original_mode == Some(snapshot),
            final(self).input_buffer@ == old(self).input_buffer@,
    {
        self.original_mode = Some(snapshot);
    }

    /// Leave raw mode: hands back exactly the snapshot captured at
    /// `open`, untouched by any rendering or input handling since.
    pub fn close(&mut self) -> (t: T)
        requires
            old(self).original_mode is Some,
        ensures
            Some(t) == old(self).original_mode,
            final(self).original_mode is None,
            final(self).input_buffer@ == old(self).input_buffer@,
    {
        let mut mode: Option<T> = None;
        std::mem::swap(&mut mode, &mut self.original_mode);
        match mode {
            Some(t) => t,
            None => {
                proof {
                    assert(false);
                }
                loop
                    invariant
                        false,
                    decreases 0int,
                {
                }
            },
        }
    }

    /// Hold back a token that arrived while waiting for a cursor
    /// position report; it is replayed ahead of fresh reads.
    pub fn stash_input(&mut self, input: Input)
        ensures
            final(self).input_buffer@ == old(self).input_buffer@.push(input),
            final(self).original_mode == old(self).original_mode,
    {
        self.input_buffer.push(input);
    }

    /// The oldest held-back token, if any; replay order preserves the
    /// order in which tokens arrived.
    pub fn take_buffered(&mut self) -> (r: Option<Input>)
        ensures
            old(self).input_buffer@.len() == 0 ==> (r is None && final(self).input_buffer@ == old(self).input_buffer@),
            old(self).input_buffer@.len() > 0 ==> (r == Some(old(self).input_buffer@[0]) && final(self).input_buffer@ == old(self).input_buffer@.drop_first()),
            final(self).original_mode == old(self).original_mode,
    {
        if self.input_buffer.len() == 0 {
            None
        } else {
            let x = self.input_buffer.remove(0);
            proof {
                assert(self.input_buffer@ =~= old(self).input_buffer@.drop_first());
            }
            Some(x)
        }
    }
}

/// The call a terminal token turns into: ETX and EOT stop the client,
/// every translatable key becomes a keystroke, and anything else is
/// unsupported input.
pub fn call_for_input(input: Input) -> (r: Result<crate::Call, crate::error::Error>)
    ensures
        (input is Etx || input is Eot) ==> (r matches Ok(c) && c is StopClient),
        !(input is Etx || input is Eot) ==> (match crate::input_translator::spec_translate(
            input,
        ) {
            Some(key) => r matches Ok(c) && c@ == (crate::CallV::ProcessKey {
                keycode: key.keycode,
                mask: key.mask,
            }),
            None => r matches Err(e) && e is UnsupportedInput,
        }),
{
    match input {
        Input::Etx => Ok(crate::Call::StopClient),
        Input::Eot => Ok(crate::Call::StopClient),
        other => {
            let translator = crate::input_translator::InputTranslator::new();
            match translator.translate_input(other) {
                Some(key) => Ok(crate::Call::ProcessKey { keycode: key.keycode, mask: key.mask }),
                None => Err(crate::error::Error::UnsupportedInput),
            }
        },
    }
}

/// The bytes that draw the empty prompt: carriage return, the prompt
/// marker, and erase-below.
pub fn setup_ui_bytes() -> (r: Vec<u8>)
    ensures
        r@ == seq![13u8, 0x3eu8, 0x20u8, 0x1bu8, 0x5bu8, 0x30u8, 0x4au8],
{
    let mut v: Vec<u8> = Vec::new();
    v.push(13);
    v.push(0x3e);
    v.push(0x20);
    v.push(0x1b);
    v.push(0x5b);
    v.push(0x30);
    v.push(0x4a);
    assert(v@ =~= seq![13u8, 0x3eu8, 0x20u8, 0x1bu8, 0x5bu8, 0x30u8, 0x4au8]);
    v
}

/// The bytes that erase the UI: carriage return and erase-below.
pub fn remove_ui_bytes() -> (r: Vec<u8>)
    ensures
        r@ == seq![13u8, 0x1bu8, 0x5bu8, 0x30u8, 0x4au8],
{
    let mut v: Vec<u8> = Vec::new();
    v.push(13);
    v.push(0x1b);
    v.push(0x5b);
    v.push(0x30);
    v.push(0x4a);
    assert(v@ =~= seq![13u8, 0x1bu8, 0x5bu8, 0x30u8, 0x4au8]);
    v
}


/// One menu line: carriage return and line feed, the one-based index —
/// reverse-video when highlighted — the candidate text, the comment in
/// faint if there is one, and erase-to-end-of-line.
pub open spec fn spec_menu_line(index: nat, highlighted: bool, c: crate::rime_api::RimeCandidateV)
    -> Seq<char> {
    seq!['\r', '\n'] + (if highlighted {
        seq![27u32 as char, '[', '7', 'm'] + crate::json_model::dec_nat(index + 1) + seq!['.']
            + seq![27u32 as char, '[', '0', 'm', ' '] + c.text
    } else {
        crate::json_model::dec_nat(index + 1) + seq!['.', ' '] + c.text
    }) + (match c.comment {
        Some(t) => seq![27u32 as char, '[', '2', 'm', ' '] + t + seq![27u32 as char, '[', '0',
            'm'],
        None => Seq::empty(),
    }) + seq![27u32 as char, '[', '0', 'K']
}

/// The menu lines from candidate `i` on.
pub open spec fn spec_menu_lines_from(
    cs: Seq<crate::rime_api::RimeCandidateV>,
    highlighted: int,
    i: int,
) -> Seq<char>
    decreases cs.len() - i,
{
    if i < 0 || i >= cs.len() {
        Seq::empty()
    } else {
        spec_menu_line(i as nat, i == highlighted, cs[i]) + spec_menu_lines_from(
            cs,
            highlighted,
            i + 1,
        )
    }
}

/// The whole menu drawing: every candidate line, then erase-below.
pub open spec fn spec_menu_text(m: crate::rime_api::RimeMenuV) -> Seq<char> {
    spec_menu_lines_from(m.candidates, m.highlighted_candidate_index as int, 0) + seq![
        27u32 as char,
        '[',
        '0',
        'J',
    ]
}

/// The text that draws the menu below the prompt.
#[verifier::rlimit(100)]
#[verifier::spinoff_prover]
pub fn menu_ui_string(menu: &crate::rime_api::RimeMenu) -> (r: String)
    ensures
        r@ == spec_menu_text(menu@),
{
    let ghost v = menu@.candidates;
    let ghost hi = menu@.highlighted_candidate_index as int;
    let esc = match crate::text::char_from_u32(27) {
        Some(c) => {
            proof {
                vstd::utf8::char_u32_cast(c, 27);
            }
            c
        },
        None => {
            proof {
                assert(false);
            }
            ' '
        },
    };
    let mut out: Vec<char> = Vec::new();
    let n = menu.candidates.len();
    let mut i: usize = 0;
    proof {
        assert(out@ + spec_menu_lines_from(v, hi, 0) =~= spec_menu_lines_from(v, hi, 0));
    }
    while i < n
        invariant
            i <= n,
            n == menu.candidates@.len(),
            v == menu@.candidates,
            hi == menu@.highlighted_candidate_index as int,
            esc == (27u32 as char),
            out@ + spec_menu_lines_from(v, hi, i as int) == spec_menu_lines_from(v, hi, 0),
        decreases n - i,
    {
        let ghost before = out@;
        out.push('\r');
        out.push('\n');
        let highlighted = i == menu.highlighted_candidate_index;
        if highlighted {
            out.push(esc);
            out.push('[');
            out.push('7');
            out.push('m');
            crate::json_writer::write_dec(&mut out, (i as u64) + 1);
            out.push('.');
            out.push(esc);
            out.push('[');
            out.push('0');
            out.push('m');
            out.push(' ');
        } else {
            crate::json_writer::write_dec(&mut out, (i as u64) + 1);
            out.push('.');
            out.push(' ');
        }
        crate::text::push_str_chars(&mut out, menu.candidates[i].text.as_str());
        match &menu.candidates[i].comment {
            Some(comment) => {
                out.push(esc);
                out.push('[');
                out.push('2');
                out.push('m');
                out.push(' ');
                crate::text::push_str_chars(&mut out, comment.as_str());
                out.push(esc);
                out.push('[');
                out.push('0');
                out.push('m');
            },
            None => {},
        }
        out.push(esc);
        out.push('[');
        out.push('0');
        out.push('K');
        proof {
            assert(v[i as int] == menu.candidates@[i as int]@);
            assert(out@ =~= before + spec_menu_line(i as nat, i as int == hi, v[i as int]));
            assert(spec_menu_line(i as nat, i as int == hi, v[i as int]) + spec_menu_lines_from(
                v,
                hi,
                i + 1,
            ) == spec_menu_lines_from(v, hi, i as int));
            assert(before + (spec_menu_line(i as nat, i as int == hi, v[i as int])
                + spec_menu_lines_from(v, hi, i + 1)) =~= (before + spec_menu_line(
                i as nat,
                i as int == hi,
                v[i as int],
            )) + spec_menu_lines_from(v, hi, i + 1));
        }
        i = i + 1;
    }
    proof {
        assert(spec_menu_lines_from(v, hi, n as int) =~= Seq::<char>::empty());
        assert(out@ + Seq::<char>::empty() =~= out@);
    }
    out.push(esc);
    out.push('[');
    out.push('0');
    out.push('J');
    proof {
        assert(out@ =~= spec_menu_text(menu@));
    }
    crate::text::string_from_chars(&out)
}


/// Select graphic rendition: normal.
pub open spec fn sgr_normal() -> Seq<u8> {
    seq![0x1bu8, 0x5bu8, 0x30u8, 0x6du8]
}

/// Select graphic rendition: faint.
pub open spec fn sgr_faint() -> Seq<u8> {
    seq![0x1bu8, 0x5bu8, 0x32u8, 0x6du8]
}

/// The device status report query the terminal answers with a cursor
/// position report.
pub open spec fn dsr_query() -> Seq<u8> {
    seq![0x1bu8, 0x5bu8, 0x36u8, 0x6eu8]
}

/// Erase from the cursor to the end of the line.
pub open spec fn erase_line_right() -> Seq<u8> {
    seq![0x1bu8, 0x5bu8, 0x30u8, 0x4bu8]
}

/// The preedit bytes from index `i` on, with the attribute switches of
/// the selection range and the cursor query woven in at their offsets.
pub open spec fn spec_comp_body(b: Seq<u8>, ss: int, se: int, cp: int, i: int) -> Seq<u8>
    decreases b.len() - i,
{
    if i < 0 || i >= b.len() {
        Seq::empty()
    } else {
        (if i == ss {
            sgr_normal()
        } else {
            Seq::empty()
        }) + (if i == se {
            sgr_faint()
        } else {
            Seq::empty()
        }) + (if i == cp {
            dsr_query()
        } else {
            Seq::empty()
        }) + seq![b[i]] + spec_comp_body(b, ss, se, cp, i + 1)
    }
}

/// The whole composition drawing: carriage return and prompt, faint by
/// default, the preedit with normal attribute inside the selection and
/// the cursor sampled at the cursor offset, then normal attribute and
/// erase-to-end-of-line.  A cursor at the very end is sampled after the
/// line instead.
pub open spec fn spec_composition_bytes(c: crate::rime_api::RimeCompositionV) -> Seq<u8> {
    let b = vstd::utf8::encode_utf8(c.preedit);
    seq![0x0du8, 0x3eu8, 0x20u8] + sgr_faint() + spec_comp_body(
        b,
        c.sel_start as int,
        c.sel_end as int,
        c.cursor_pos as int,
        0,
    ) + sgr_normal() + erase_line_right() + (if c.cursor_pos >= b.len() {
        dsr_query()
    } else {
        Seq::empty()
    })
}

/// The bytes that draw the composition on the prompt line, cursor query
/// included.  The cursor position report must be read back after these
/// bytes are written.
#[verifier::rlimit(100)]
#[verifier::spinoff_prover]
pub fn composition_ui_bytes(c: &crate::rime_api::RimeComposition) -> (out: Vec<u8>)
    ensures
        out@ == spec_composition_bytes(c@),
{
    let b = c.preedit.as_str().as_bytes_vec();
    let ghost bv = b@;
    let ghost ss = c@.sel_start as int;
    let ghost se = c@.sel_end as int;
    let ghost cp = c@.cursor_pos as int;
    let mut out: Vec<u8> = Vec::new();
    out.push(0x0d);
    out.push(0x3e);
    out.push(0x20);
    out.push(0x1b);
    out.push(0x5b);
    out.push(0x32);
    out.push(0x6d);
    let ghost pre = out@;
    proof {
        assert(pre =~= seq![0x0du8, 0x3eu8, 0x20u8] + sgr_faint());
        assert(out@ + spec_comp_body(bv, ss, se, cp, 0) =~= pre + spec_comp_body(
            bv,
            ss,
            se,
            cp,
            0,
        ));
    }
    let n = b.len();
    let mut i: usize = 0;
    while i < n
        invariant
            i <= n,
            n == bv.len(),
            bv == b@,
            b@ == vstd::utf8::encode_utf8(c@.preedit),
            ss == c@.sel_start as int,
            se == c@.sel_end as int,
            cp == c@.cursor_pos as int,
            out@ + spec_comp_body(bv, ss, se, cp, i as int) == pre + spec_comp_body(
                bv,
                ss,
                se,
                cp,
                0,
            ),
        decreases n - i,
    {
        let ghost before = out@;
        if i == c.sel_start {
            out.push(0x1b);
            out.push(0x5b);
            out.push(0x30);
            out.push(0x6d);
        }
        if i == c.sel_end {
            out.push(0x1b);
            out.push(0x5b);
            out.push(0x32);
            out.push(0x6d);
        }
        if i == c.cursor_pos {
            out.push(0x1b);
            out.push(0x5b);
            out.push(0x36);
            out.push(0x6e);
        }
        out.push(b[i]);
        proof {
            let chunk = (if i as int == ss {
                sgr_normal()
            } else {
                Seq::<u8>::empty()
            }) + (if i as int == se {
                sgr_faint()
            } else {
                Seq::<u8>::empty()
            }) + (if i as int == cp {
                dsr_query()
            } else {
                Seq::<u8>::empty()
            }) + seq![bv[i as int]];
            assert(out@ =~= before + chunk);
            assert(chunk + spec_comp_body(bv, ss, se, cp, i + 1) =~= spec_comp_body(
                bv,
                ss,
                se,
                cp,
                i as int,
            ));
            assert(before + (chunk + spec_comp_body(bv, ss, se, cp, i + 1)) =~= (before + chunk)
                + spec_comp_body(bv, ss, se, cp, i + 1));
        }
        i = i + 1;
    }
    proof {
        assert(spec_comp_body(bv, ss, se, cp, n as int) =~= Seq::<u8>::empty());
        assert(out@ + Seq::<u8>::empty() =~= out@);
    }
    out.push(0x1b);
    out.push(0x5b);
    out.push(0x30);
    out.push(0x6d);
    out.push(0x1b);
    out.push(0x5b);
    out.push(0x30);
    out.push(0x4b);
    if c.cursor_pos >= n {
        out.push(0x1b);
        out.push(0x5b);
        out.push(0x36);
        out.push(0x6e);
    }
    proof {
        assert(out@ =~= spec_composition_bytes(c@));
    }
    out
}

/// The decimal digits of `v`, as ASCII bytes.
pub open spec fn dec_nat_ascii(v: nat) -> Seq<u8>
    decreases v,
{
    if v < 10 {
        seq![(0x30 + v) as u8]
    } else {
        dec_nat_ascii(v / 10) + seq![(0x30 + (v % 10)) as u8]
    }
}

/// Append the decimal digits of `v` as ASCII bytes.
pub fn write_dec_ascii(out: &mut Vec<u8>, v: u64)
    ensures
        final(out)@ == old(out)@ + dec_nat_ascii(v as nat),
    decreases v,
{
    if v >= 10 {
        write_dec_ascii(out, v / 10);
    }
    out.push(0x30 + (v % 10) as u8);
    assert(out@ =~= old(out)@ + dec_nat_ascii(v as nat));
}

/// The bytes that move the cursor to a one-based row and column.
pub fn cursor_to_bytes(row: usize, col: usize) -> (out: Vec<u8>)
    ensures
        out@ == seq![0x1bu8, 0x5bu8] + dec_nat_ascii(row as nat) + seq![0x3bu8] + dec_nat_ascii(
            col as nat,
        ) + seq![0x48u8],
{
    let mut out: Vec<u8> = Vec::new();
    out.push(0x1b);
    out.push(0x5b);
    write_dec_ascii(&mut out, row as u64);
    out.push(0x3b);
    write_dec_ascii(&mut out, col as u64);
    out.push(0x48);
    assert(out@ =~= seq![0x1bu8, 0x5bu8] + dec_nat_ascii(row as nat) + seq![0x3bu8]
        + dec_nat_ascii(col as nat) + seq![0x48u8]);
    out
}

/// The query bytes on their own, for sampling the cursor after the menu.
pub fn dsr_query_bytes() -> (out: Vec<u8>)
    ensures
        out@ == dsr_query(),
{
    let mut out: Vec<u8> = Vec::new();
    out.push(0x1b);
    out.push(0x5b);
    out.push(0x36);
    out.push(0x6e);
    assert(out@ =~= dsr_query());
    out
}

/// The row the cursor returns to after the menu: the menu's height above
/// the row the terminal reported, stopping at the top of the screen.
pub fn menu_top_row(last_row: usize, height: usize) -> (r: usize)
    ensures
        r == (if last_row > height {
            (last_row - height) as int
        } else {
            1int
        }),
{
    if last_row > height {
        last_row - height
    } else {
        1
    }
}

/// What to do with a token read while a cursor query is in flight.
#[derive(Debug)]
pub enum CprStep {
    /// The terminal's answer: the cursor's one-based row and column.
    Report { row: usize, col: usize },
    /// Any other token: hold it back, to be replayed after the wait.
    Defer(Input),
}

/// The wait for a cursor position report, one token at a time: the report
/// ends the wait, and every other token is deferred in arrival order —
/// tokens are reordered against the report only, never among themselves.
pub fn cpr_wait_step(input: Input) -> (r: CprStep)
    ensures
        input matches Input::CursorPositionReport { row, col } ==> r == (CprStep::Report {
            row,
            col,
        }),
        !(input is CursorPositionReport) ==> r == CprStep::Defer(input),
{
    match input {
        Input::CursorPositionReport { row, col } => CprStep::Report { row, col },
        other => CprStep::Defer(other),
    }
}

} // verus!
