//! The wire text, mathematically: what each request and reply serializes
//! to, and what one parse step yields on any text.
//!
//! The serializers produce the canonical compact form.  The parsers are
//! exact three-way functions: a value and the index past it, `Incomplete`
//! when the text ran out mid-value, or `Fail` on anything else.  They
//! accept JSON whitespace between tokens and the canonical member order.
use vstd::prelude::*;

use crate::json_request_processor::{ErrorId, OutcomeV, ReplyV, RequestV};
use crate::rime_api::{RimeCandidateV, RimeCompositionV, RimeMenuV};
use crate::{CallV, EffectV};

verus! {

/// The outcome of one spec-level parse step.
pub enum PRes<T> {
    /// The parsed value and the index of the first char after it.
    Parsed(T, int),
    /// The text ended in the middle of the value.
    Incomplete,
    /// The text cannot begin a value of this production.
    Fail,
}

// ---------------------------------------------------------------------
// serialization
// ---------------------------------------------------------------------
/// The lowercase hex digit for `n` (`n < 16`).
pub open spec fn hex_char(n: u32) -> char {
    if n < 10 {
        (0x30 + n) as char
    } else {
        (0x57 + n) as char
    }
}

/// How one char appears inside a JSON string: itself, a two-char escape
/// for quote and backslash, or `\u00..` for control characters.
pub open spec fn esc_char(c: char) -> Seq<char> {
    if c == '"' {
        seq!['\\', '"']
    } else if c == '\\' {
        seq!['\\', '\\']
    } else if (c as u32) < 0x20 {
        seq!['\\', 'u', '0', '0', hex_char((c as u32) / 16), hex_char((c as u32) % 16)]
    } else {
        seq![c]
    }
}

pub open spec fn ser_str_body(s: Seq<char>) -> Seq<char>
    decreases s.len(),
{
    if s.len() == 0 {
        Seq::empty()
    } else {
        esc_char(s[0]) + ser_str_body(s.drop_first())
    }
}

/// A JSON string token, quotes included.
pub open spec fn ser_string(s: Seq<char>) -> Seq<char> {
    seq!['"'] + ser_str_body(s) + seq!['"']
}

pub open spec fn digit_char(d: int) -> char {
    (0x30 + d) as char
}

/// The decimal digits of `v`, most significant first.
pub open spec fn dec_nat(v: nat) -> Seq<char>
    decreases v,
{
    if v < 10 {
        seq![digit_char(v as int)]
    } else {
        dec_nat(v / 10) + seq![digit_char((v % 10) as int)]
    }
}

pub open spec fn ser_u32(v: u32) -> Seq<char> {
    dec_nat(v as nat)
}

pub open spec fn ser_usize(v: usize) -> Seq<char> {
    dec_nat(v as nat)
}

pub open spec fn ser_i64(v: i64) -> Seq<char> {
    if v < 0 {
        seq!['-'] + dec_nat((-(v as int)) as nat)
    } else {
        dec_nat(v as nat)
    }
}

pub open spec fn ser_bool(b: bool) -> Seq<char> {
    if b {
        "true"@
    } else {
        "false"@
    }
}

/// The snake_case string token of an error identifier.
pub open spec fn ser_error_id(id: ErrorId) -> Seq<char> {
    match id {
        ErrorId::UnsupportedInput => "\"unsupported_input\""@,
        ErrorId::MoreThanOneClient => "\"more_than_one_client\""@,
        ErrorId::JsonError => "\"json_error\""@,
        ErrorId::IoError => "\"io_error\""@,
        ErrorId::OptionNotFound => "\"option_not_found\""@,
        ErrorId::ConfigNotFound => "\"config_not_found\""@,
    }
}

/// A call, in the tagged `method`/`params` form.
pub open spec fn ser_call(c: CallV) -> Seq<char> {
    match c {
        CallV::ProcessKey { keycode, mask } => {
            "{\"method\":\"process_key\",\"params\":{\"keycode\":"@ + ser_u32(keycode)
                + ",\"mask\":"@ + ser_u32(mask) + "}}"@
        },
        CallV::SchemaName => "{\"method\":\"schema_name\"}"@,
        CallV::ConfigValueInteger { config_id, option_key } => {
            "{\"method\":\"config_value_integer\",\"params\":{\"config_id\":"@ + ser_string(
                config_id,
            ) + ",\"option_key\":"@ + ser_string(option_key) + "}}"@
        },
        CallV::ClearComposition => "{\"method\":\"clear_composition\"}"@,
        CallV::StopClient => "{\"method\":\"stop_client\"}"@,
        CallV::StopServer => "{\"method\":\"stop_server\"}"@,
    }
}

pub open spec fn ser_request(r: RequestV) -> Seq<char> {
    "{\"id\":"@ + ser_string(r.id) + ",\"call\":"@ + ser_call(r.call) + "}"@
}

pub open spec fn ser_composition(c: RimeCompositionV) -> Seq<char> {
    "{\"length\":"@ + ser_usize(c.length) + ",\"cursor_pos\":"@ + ser_usize(c.cursor_pos)
        + ",\"sel_start\":"@ + ser_usize(c.sel_start) + ",\"sel_end\":"@ + ser_usize(c.sel_end)
        + ",\"preedit\":"@ + ser_string(c.preedit) + "}"@
}

pub open spec fn ser_candidate(c: RimeCandidateV) -> Seq<char> {
    "{\"text\":"@ + ser_string(c.text) + ",\"comment\":"@ + (match c.comment {
        Some(s) => ser_string(s),
        None => "null"@,
    }) + "}"@
}

/// The members of the candidate array, comma-separated.
pub open spec fn ser_candidates(cs: Seq<RimeCandidateV>) -> Seq<char>
    decreases cs.len(),
{
    if cs.len() == 0 {
        Seq::empty()
    } else if cs.len() == 1 {
        ser_candidate(cs[0])
    } else {
        ser_candidate(cs[0]) + seq![','] + ser_candidates(cs.drop_first())
    }
}

pub open spec fn ser_menu(m: RimeMenuV) -> Seq<char> {
    "{\"candidates\":["@ + ser_candidates(m.candidates) + "],\"page_no\":"@ + ser_usize(m.page_no)
        + ",\"highlighted_candidate_index\":"@ + ser_usize(m.highlighted_candidate_index)
        + ",\"is_last_page\":"@ + ser_bool(m.is_last_page) + "}"@
}

pub open spec fn ser_effect(e: EffectV) -> Seq<char> {
    match e {
        EffectV::StopClient => "\"stop_client\""@,
        EffectV::StopServer => "\"stop_server\""@,
        EffectV::CommitString(s) => "{\"commit_string\":"@ + ser_string(s) + "}"@,
        EffectV::UpdateUi { composition, menu } => {
            "{\"update_ui\":{\"composition\":"@ + ser_composition(composition) + ",\"menu\":"@
                + ser_menu(menu) + "}}"@
        },
    }
}

pub open spec fn ser_outcome(o: OutcomeV) -> Seq<char> {
    match o {
        OutcomeV::Effect(e) => "{\"effect\":"@ + ser_effect(e) + "}"@,
        OutcomeV::Error { id, message } => {
            "{\"error\":{\"id\":"@ + ser_error_id(id) + ",\"message\":"@ + ser_string(message)
                + "}}"@
        },
        OutcomeV::SchemaName(s) => "{\"schema_name\":"@ + ser_string(s) + "}"@,
        OutcomeV::ConfigValueInteger(v) => "{\"config_value_integer\":"@ + ser_i64(v) + "}"@,
    }
}

pub open spec fn ser_reply(r: ReplyV) -> Seq<char> {
    "{\"id\":"@ + (match r.id {
        Some(s) => ser_string(s),
        None => "null"@,
    }) + ",\"outcome\":"@ + ser_outcome(r.outcome) + "}"@
}

// ---------------------------------------------------------------------
// parsing
// ---------------------------------------------------------------------
pub open spec fn is_ws(c: char) -> bool {
    c == ' ' || c == '\t' || c == '\n' || c == '\r'
}

/// The first index at or after `i` holding a non-whitespace char.
pub open spec fn skip_ws(s: Seq<char>, i: int) -> int
    decreases s.len() - i,
{
    if 0 <= i < s.len() && is_ws(s[i]) {
        skip_ws(s, i + 1)
    } else {
        i
    }
}

/// One expected char.
pub open spec fn p_char(s: Seq<char>, i: int, c: char) -> PRes<()> {
    if i >= s.len() {
        PRes::Incomplete
    } else if s[i] == c {
        PRes::Parsed((), i + 1)
    } else {
        PRes::Fail
    }
}

/// An expected literal token, char for char.
pub open spec fn p_lit(s: Seq<char>, i: int, lit: Seq<char>) -> PRes<()>
    decreases lit.len(),
{
    if lit.len() == 0 {
        PRes::Parsed((), i)
    } else if i >= s.len() {
        PRes::Incomplete
    } else if s[i] == lit[0] {
        p_lit(s, i + 1, lit.drop_first())
    } else {
        PRes::Fail
    }
}

/// `{`, the first member's key, and its `:`, whitespace allowed between
/// tokens.  `key` carries its quotes.
pub open spec fn p_obj_first_key(s: Seq<char>, i: int, key: Seq<char>) -> PRes<()> {
    match p_char(s, skip_ws(s, i), '{') {
        PRes::Parsed(_, j) => match p_lit(s, skip_ws(s, j), key) {
            PRes::Parsed(_, k) => p_char(s, skip_ws(s, k), ':'),
            PRes::Incomplete => PRes::Incomplete,
            PRes::Fail => PRes::Fail,
        },
        PRes::Incomplete => PRes::Incomplete,
        PRes::Fail => PRes::Fail,
    }
}

/// `,`, the next member's key, and its `:`.
pub open spec fn p_next_key(s: Seq<char>, i: int, key: Seq<char>) -> PRes<()> {
    match p_char(s, skip_ws(s, i), ',') {
        PRes::Parsed(_, j) => match p_lit(s, skip_ws(s, j), key) {
            PRes::Parsed(_, k) => p_char(s, skip_ws(s, k), ':'),
            PRes::Incomplete => PRes::Incomplete,
            PRes::Fail => PRes::Fail,
        },
        PRes::Incomplete => PRes::Incomplete,
        PRes::Fail => PRes::Fail,
    }
}

/// The closing `}` of an object.
pub open spec fn p_obj_end(s: Seq<char>, i: int) -> PRes<()> {
    p_char(s, skip_ws(s, i), '}')
}

pub open spec fn hexv(c: char) -> int {
    if '0' <= c <= '9' {
        c as int - 0x30
    } else if 'a' <= c <= 'f' {
        c as int - 0x57
    } else if 'A' <= c <= 'F' {
        c as int - 0x37
    } else {
        -1
    }
}

/// The body of a string token after the opening quote: chars and escapes
/// up to the closing quote.  `\u` escapes cover the basic plane, with
/// surrogate pairs for the rest.
pub open spec fn p_str_body(s: Seq<char>, i: int) -> PRes<Seq<char>>
    decreases s.len() - i,
{
    if i < 0 || i >= s.len() {
        PRes::Incomplete
    } else if s[i] == '"' {
        PRes::Parsed(Seq::empty(), i + 1)
    } else if s[i] == '\\' {
        if i + 1 >= s.len() {
            PRes::Incomplete
        } else {
            let e = s[i + 1];
            if e == '"' || e == '\\' || e == '/' {
                match p_str_body(s, i + 2) {
                    PRes::Parsed(t, k) => PRes::Parsed(seq![e] + t, k),
                    PRes::Incomplete => PRes::Incomplete,
                    PRes::Fail => PRes::Fail,
                }
            } else if e == 'n' || e == 't' || e == 'r' || e == 'b' || e == 'f' {
                let c = if e == 'n' {
                    '\n'
                } else if e == 't' {
                    '\t'
                } else if e == 'r' {
                    '\r'
                } else if e == 'b' {
                    8u32 as char
                } else {
                    12u32 as char
                };
                match p_str_body(s, i + 2) {
                    PRes::Parsed(t, k) => PRes::Parsed(seq![c] + t, k),
                    PRes::Incomplete => PRes::Incomplete,
                    PRes::Fail => PRes::Fail,
                }
            } else if e == 'u' {
                if i + 2 >= s.len() {
                    PRes::Incomplete
                } else if hexv(s[i + 2]) < 0 {
                    PRes::Fail
                } else if i + 3 >= s.len() {
                    PRes::Incomplete
                } else if hexv(s[i + 3]) < 0 {
                    PRes::Fail
                } else if i + 4 >= s.len() {
                    PRes::Incomplete
                } else if hexv(s[i + 4]) < 0 {
                    PRes::Fail
                } else if i + 5 >= s.len() {
                    PRes::Incomplete
                } else if hexv(s[i + 5]) < 0 {
                    PRes::Fail
                } else {
                    let v = hexv(s[i + 2]) * 4096 + hexv(s[i + 3]) * 256 + hexv(s[i + 4]) * 16
                        + hexv(s[i + 5]);
                    if 0xdc00 <= v <= 0xdfff {
                        // a low surrogate half cannot stand alone
                        PRes::Fail
                    } else if 0xd800 <= v <= 0xdbff {
                        // a high surrogate half must pair with a low one
                        if i + 6 >= s.len() {
                            PRes::Incomplete
                        } else if s[i + 6] != '\\' {
                            PRes::Fail
                        } else if i + 7 >= s.len() {
                            PRes::Incomplete
                        } else if s[i + 7] != 'u' {
                            PRes::Fail
                        } else if i + 8 >= s.len() {
                            PRes::Incomplete
                        } else if hexv(s[i + 8]) < 0 {
                            PRes::Fail
                        } else if i + 9 >= s.len() {
                            PRes::Incomplete
                        } else if hexv(s[i + 9]) < 0 {
                            PRes::Fail
                        } else if i + 10 >= s.len() {
                            PRes::Incomplete
                        } else if hexv(s[i + 10]) < 0 {
                            PRes::Fail
                        } else if i + 11 >= s.len() {
                            PRes::Incomplete
                        } else if hexv(s[i + 11]) < 0 {
                            PRes::Fail
                        } else {
                            let w = hexv(s[i + 8]) * 4096 + hexv(s[i + 9]) * 256 + hexv(
                                s[i + 10],
                            ) * 16 + hexv(s[i + 11]);
                            if !(0xdc00 <= w <= 0xdfff) {
                                PRes::Fail
                            } else {
                                let scalar = 0x10000 + (v - 0xd800) * 0x400 + (w - 0xdc00);
                                match p_str_body(s, i + 12) {
                                    PRes::Parsed(t, k) => PRes::Parsed(
                                        seq![(scalar as u32) as char] + t,
                                        k,
                                    ),
                                    PRes::Incomplete => PRes::Incomplete,
                                    PRes::Fail => PRes::Fail,
                                }
                            }
                        }
                    } else {
                        match p_str_body(s, i + 6) {
                            PRes::Parsed(t, k) => PRes::Parsed(seq![(v as u32) as char] + t, k),
                            PRes::Incomplete => PRes::Incomplete,
                            PRes::Fail => PRes::Fail,
                        }
                    }
                }
            } else {
                PRes::Fail
            }
        }
    } else if (s[i] as u32) < 0x20 {
        PRes::Fail
    } else {
        match p_str_body(s, i + 1) {
            PRes::Parsed(t, k) => PRes::Parsed(seq![s[i]] + t, k),
            PRes::Incomplete => PRes::Incomplete,
            PRes::Fail => PRes::Fail,
        }
    }
}

/// A string token, leading whitespace allowed.
pub open spec fn p_string(s: Seq<char>, i: int) -> PRes<Seq<char>> {
    let j = skip_ws(s, i);
    if j >= s.len() {
        PRes::Incomplete
    } else if s[j] != '"' {
        PRes::Fail
    } else {
        p_str_body(s, j + 1)
    }
}

pub open spec fn is_digit(c: char) -> bool {
    '0' <= c <= '9'
}

pub open spec fn dval(c: char) -> int {
    c as int - 0x30
}

/// A run of digits folded left to right, failing past `bound`.
pub open spec fn p_dec_rec(s: Seq<char>, i: int, acc: int, bound: int) -> PRes<int>
    decreases s.len() - i,
{
    if i < 0 || i >= s.len() {
        PRes::Parsed(acc, i)
    } else if is_digit(s[i]) {
        let a2 = acc * 10 + dval(s[i]);
        if a2 > bound {
            PRes::Fail
        } else {
            p_dec_rec(s, i + 1, a2, bound)
        }
    } else {
        PRes::Parsed(acc, i)
    }
}

/// An unsigned decimal number no larger than `bound`, leading whitespace
/// allowed.  A leading zero followed by more digits is not a number.
pub open spec fn p_dec(s: Seq<char>, i: int, bound: int) -> PRes<int> {
    let j = skip_ws(s, i);
    if j >= s.len() {
        PRes::Incomplete
    } else if !is_digit(s[j]) {
        PRes::Fail
    } else if s[j] == '0' && j + 1 < s.len() && is_digit(s[j + 1]) {
        PRes::Fail
    } else {
        p_dec_rec(s, j, 0, bound)
    }
}

/// A possibly negative decimal number within `i64`, leading whitespace
/// allowed.
pub open spec fn p_i64(s: Seq<char>, i: int) -> PRes<i64> {
    let j = skip_ws(s, i);
    if j >= s.len() {
        PRes::Incomplete
    } else if s[j] == '-' {
        match p_dec(s, j + 1, 0x8000_0000_0000_0000) {
            PRes::Parsed(v, k) => PRes::Parsed((-v) as i64, k),
            PRes::Incomplete => PRes::Incomplete,
            PRes::Fail => PRes::Fail,
        }
    } else {
        match p_dec(s, j, 0x7fff_ffff_ffff_ffff) {
            PRes::Parsed(v, k) => PRes::Parsed(v as i64, k),
            PRes::Incomplete => PRes::Incomplete,
            PRes::Fail => PRes::Fail,
        }
    }
}

/// `true` or `false`, leading whitespace allowed.
pub open spec fn p_bool(s: Seq<char>, i: int) -> PRes<bool> {
    let j = skip_ws(s, i);
    if j >= s.len() {
        PRes::Incomplete
    } else if s[j] == 't' {
        match p_lit(s, j, "true"@) {
            PRes::Parsed(_, k) => PRes::Parsed(true, k),
            PRes::Incomplete => PRes::Incomplete,
            PRes::Fail => PRes::Fail,
        }
    } else if s[j] == 'f' {
        match p_lit(s, j, "false"@) {
            PRes::Parsed(_, k) => PRes::Parsed(false, k),
            PRes::Incomplete => PRes::Incomplete,
            PRes::Fail => PRes::Fail,
        }
    } else {
        PRes::Fail
    }
}

/// `null` or a string token, leading whitespace allowed.
pub open spec fn p_null_or_string(s: Seq<char>, i: int) -> PRes<Option<Seq<char>>> {
    let j = skip_ws(s, i);
    if j >= s.len() {
        PRes::Incomplete
    } else if s[j] == 'n' {
        match p_lit(s, j, "null"@) {
            PRes::Parsed(_, k) => PRes::Parsed(None, k),
            PRes::Incomplete => PRes::Incomplete,
            PRes::Fail => PRes::Fail,
        }
    } else if s[j] == '"' {
        match p_str_body(s, j + 1) {
            PRes::Parsed(t, k) => PRes::Parsed(Some(t), k),
            PRes::Incomplete => PRes::Incomplete,
            PRes::Fail => PRes::Fail,
        }
    } else {
        PRes::Fail
    }
}

} // verus!

verus! {

/// A call value: the tagged `method` form with its `params`.
pub open spec fn p_call(s: Seq<char>, i: int) -> PRes<CallV> {
    match p_obj_first_key(s, i, "\"method\""@) {
        PRes::Parsed(_, i1) => match p_string(s, i1) {
            PRes::Parsed(m, i2) => {
                if m == "process_key"@ {
                    match p_next_key(s, i2, "\"params\""@) {
                        PRes::Parsed(_, i3) => match p_obj_first_key(s, i3, "\"keycode\""@) {
                            PRes::Parsed(_, i4) => match p_dec(s, i4, 0xffff_ffff) {
                                PRes::Parsed(kc, i5) => match p_next_key(s, i5, "\"mask\""@) {
                                    PRes::Parsed(_, i6) => match p_dec(s, i6, 0xffff_ffff) {
                                        PRes::Parsed(mk, i7) => match p_obj_end(s, i7) {
                                            PRes::Parsed(_, i8) => match p_obj_end(s, i8) {
                                                PRes::Parsed(_, i9) => PRes::Parsed(
                                                    CallV::ProcessKey {
                                                        keycode: kc as u32,
                                                        mask: mk as u32,
                                                    },
                                                    i9,
                                                ),
                                                PRes::Incomplete => PRes::Incomplete,
                                                PRes::Fail => PRes::Fail,
                                            },
                                            PRes::Incomplete => PRes::Incomplete,
                                            PRes::Fail => PRes::Fail,
                                        },
                                        PRes::Incomplete => PRes::Incomplete,
                                        PRes::Fail => PRes::Fail,
                                    },
                                    PRes::Incomplete => PRes::Incomplete,
                                    PRes::Fail => PRes::Fail,
                                },
                                PRes::Incomplete => PRes::Incomplete,
                                PRes::Fail => PRes::Fail,
                            },
                            PRes::Incomplete => PRes::Incomplete,
                            PRes::Fail => PRes::Fail,
                        },
                        PRes::Incomplete => PRes::Incomplete,
                        PRes::Fail => PRes::Fail,
                    }
                } else if m == "config_value_integer"@ {
                    match p_next_key(s, i2, "\"params\""@) {
                        PRes::Parsed(_, i3) => match p_obj_first_key(s, i3, "\"config_id\""@) {
                            PRes::Parsed(_, i4) => match p_string(s, i4) {
                                PRes::Parsed(cid, i5) => match p_next_key(s, i5, "\"option_key\""@) {
                                    PRes::Parsed(_, i6) => match p_string(s, i6) {
                                        PRes::Parsed(ok_, i7) => match p_obj_end(s, i7) {
                                            PRes::Parsed(_, i8) => match p_obj_end(s, i8) {
                                                PRes::Parsed(_, i9) => PRes::Parsed(
                                                    CallV::ConfigValueInteger {
                                                        config_id: cid,
                                                        option_key: ok_,
                                                    },
                                                    i9,
                                                ),
                                                PRes::Incomplete => PRes::Incomplete,
                                                PRes::Fail => PRes::Fail,
                                            },
                                            PRes::Incomplete => PRes::Incomplete,
                                            PRes::Fail => PRes::Fail,
                                        },
                                        PRes::Incomplete => PRes::Incomplete,
                                        PRes::Fail => PRes::Fail,
                                    },
                                    PRes::Incomplete => PRes::Incomplete,
                                    PRes::Fail => PRes::Fail,
                                },
                                PRes::Incomplete => PRes::Incomplete,
                                PRes::Fail => PRes::Fail,
                            },
                            PRes::Incomplete => PRes::Incomplete,
                            PRes::Fail => PRes::Fail,
                        },
                        PRes::Incomplete => PRes::Incomplete,
                        PRes::Fail => PRes::Fail,
                    }
                } else if m == "schema_name"@ {
                    match p_obj_end(s, i2) {
                        PRes::Parsed(_, i3) => PRes::Parsed(CallV::SchemaName, i3),
                        PRes::Incomplete => PRes::Incomplete,
                        PRes::Fail => PRes::Fail,
                    }
                } else if m == "clear_composition"@ {
                    match p_obj_end(s, i2) {
                        PRes::Parsed(_, i3) => PRes::Parsed(CallV::ClearComposition, i3),
                        PRes::Incomplete => PRes::Incomplete,
                        PRes::Fail => PRes::Fail,
                    }
                } else if m == "stop_client"@ {
                    match p_obj_end(s, i2) {
                        PRes::Parsed(_, i3) => PRes::Parsed(CallV::StopClient, i3),
                        PRes::Incomplete => PRes::Incomplete,
                        PRes::Fail => PRes::Fail,
                    }
                } else if m == "stop_server"@ {
                    match p_obj_end(s, i2) {
                        PRes::Parsed(_, i3) => PRes::Parsed(CallV::StopServer, i3),
                        PRes::Incomplete => PRes::Incomplete,
                        PRes::Fail => PRes::Fail,
                    }
                } else {
                    PRes::Fail
                }
            },
            PRes::Incomplete => PRes::Incomplete,
            PRes::Fail => PRes::Fail,
        },
        PRes::Incomplete => PRes::Incomplete,
        PRes::Fail => PRes::Fail,
    }
}

/// A whole request object.
pub open spec fn p_request(s: Seq<char>, i: int) -> PRes<RequestV> {
    match p_obj_first_key(s, i, "\"id\""@) {
        PRes::Parsed(_, i1) => match p_string(s, i1) {
            PRes::Parsed(id, i2) => match p_next_key(s, i2, "\"call\""@) {
                PRes::Parsed(_, i3) => match p_call(s, i3) {
                    PRes::Parsed(call, i4) => match p_obj_end(s, i4) {
                        PRes::Parsed(_, i5) => PRes::Parsed(RequestV { id, call }, i5),
                        PRes::Incomplete => PRes::Incomplete,
                        PRes::Fail => PRes::Fail,
                    },
                    PRes::Incomplete => PRes::Incomplete,
                    PRes::Fail => PRes::Fail,
                },
                PRes::Incomplete => PRes::Incomplete,
                PRes::Fail => PRes::Fail,
            },
            PRes::Incomplete => PRes::Incomplete,
            PRes::Fail => PRes::Fail,
        },
        PRes::Incomplete => PRes::Incomplete,
        PRes::Fail => PRes::Fail,
    }
}

/// A composition object.
pub open spec fn p_composition(s: Seq<char>, i: int) -> PRes<RimeCompositionV> {
    match p_obj_first_key(s, i, "\"length\""@) {
        PRes::Parsed(_, i1) => match p_dec(s, i1, usize::MAX as int) {
            PRes::Parsed(length, i2) => match p_next_key(s, i2, "\"cursor_pos\""@) {
                PRes::Parsed(_, i3) => match p_dec(s, i3, usize::MAX as int) {
                    PRes::Parsed(cursor_pos, i4) => match p_next_key(s, i4, "\"sel_start\""@) {
                        PRes::Parsed(_, i5) => match p_dec(s, i5, usize::MAX as int) {
                            PRes::Parsed(sel_start, i6) => match p_next_key(s, i6, "\"sel_end\""@) {
                                PRes::Parsed(_, i7) => match p_dec(s, i7, usize::MAX as int) {
                                    PRes::Parsed(sel_end, i8) => match p_next_key(
                                        s,
                                        i8,
                                        "\"preedit\""@,
                                    ) {
                                        PRes::Parsed(_, i9) => match p_string(s, i9) {
                                            PRes::Parsed(preedit, i10) => match p_obj_end(s, i10) {
                                                PRes::Parsed(_, i11) => PRes::Parsed(
                                                    RimeCompositionV {
                                                        length: length as usize,
                                                        cursor_pos: cursor_pos as usize,
                                                        sel_start: sel_start as usize,
                                                        sel_end: sel_end as usize,
                                                        preedit,
                                                    },
                                                    i11,
                                                ),
                                                PRes::Incomplete => PRes::Incomplete,
                                                PRes::Fail => PRes::Fail,
                                            },
                                            PRes::Incomplete => PRes::Incomplete,
                                            PRes::Fail => PRes::Fail,
                                        },
                                        PRes::Incomplete => PRes::Incomplete,
                                        PRes::Fail => PRes::Fail,
                                    },
                                    PRes::Incomplete => PRes::Incomplete,
                                    PRes::Fail => PRes::Fail,
                                },
                                PRes::Incomplete => PRes::Incomplete,
                                PRes::Fail => PRes::Fail,
                            },
                            PRes::Incomplete => PRes::Incomplete,
                            PRes::Fail => PRes::Fail,
                        },
                        PRes::Incomplete => PRes::Incomplete,
                        PRes::Fail => PRes::Fail,
                    },
                    PRes::Incomplete => PRes::Incomplete,
                    PRes::Fail => PRes::Fail,
                },
                PRes::Incomplete => PRes::Incomplete,
                PRes::Fail => PRes::Fail,
            },
            PRes::Incomplete => PRes::Incomplete,
            PRes::Fail => PRes::Fail,
        },
        PRes::Incomplete => PRes::Incomplete,
        PRes::Fail => PRes::Fail,
    }
}

/// One candidate object.
pub open spec fn p_candidate(s: Seq<char>, i: int) -> PRes<RimeCandidateV> {
    match p_obj_first_key(s, i, "\"text\""@) {
        PRes::Parsed(_, i1) => match p_string(s, i1) {
            PRes::Parsed(text, i2) => match p_next_key(s, i2, "\"comment\""@) {
                PRes::Parsed(_, i3) => match p_null_or_string(s, i3) {
                    PRes::Parsed(comment, i4) => match p_obj_end(s, i4) {
                        PRes::Parsed(_, i5) => PRes::Parsed(RimeCandidateV { text, comment }, i5),
                        PRes::Incomplete => PRes::Incomplete,
                        PRes::Fail => PRes::Fail,
                    },
                    PRes::Incomplete => PRes::Incomplete,
                    PRes::Fail => PRes::Fail,
                },
                PRes::Incomplete => PRes::Incomplete,
                PRes::Fail => PRes::Fail,
            },
            PRes::Incomplete => PRes::Incomplete,
            PRes::Fail => PRes::Fail,
        },
        PRes::Incomplete => PRes::Incomplete,
        PRes::Fail => PRes::Fail,
    }
}

/// One or more comma-separated candidates followed by `]`.
pub open spec fn p_cand_list(s: Seq<char>, i: int) -> PRes<Seq<RimeCandidateV>>
    decreases s.len() - i,
{
    match p_candidate(s, i) {
        PRes::Parsed(c, j) => {
            if j <= i {
                PRes::Fail
            } else {
                let k = skip_ws(s, j);
                if k < j {
                    PRes::Fail
                } else if k >= s.len() {
                    PRes::Incomplete
                } else if s[k] == ',' {
                    match p_cand_list(s, k + 1) {
                        PRes::Parsed(rest, m) => PRes::Parsed(seq![c] + rest, m),
                        PRes::Incomplete => PRes::Incomplete,
                        PRes::Fail => PRes::Fail,
                    }
                } else if s[k] == ']' {
                    PRes::Parsed(seq![c], k + 1)
                } else {
                    PRes::Fail
                }
            }
        },
        PRes::Incomplete => PRes::Incomplete,
        PRes::Fail => PRes::Fail,
    }
}

/// A candidate array, brackets included.
pub open spec fn p_cand_array(s: Seq<char>, i: int) -> PRes<Seq<RimeCandidateV>> {
    match p_char(s, skip_ws(s, i), '[') {
        PRes::Parsed(_, j) => {
            let k = skip_ws(s, j);
            if k >= s.len() {
                PRes::Incomplete
            } else if s[k] == ']' {
                PRes::Parsed(Seq::empty(), k + 1)
            } else {
                p_cand_list(s, k)
            }
        },
        PRes::Incomplete => PRes::Incomplete,
        PRes::Fail => PRes::Fail,
    }
}

/// A menu object.
pub open spec fn p_menu(s: Seq<char>, i: int) -> PRes<RimeMenuV> {
    match p_obj_first_key(s, i, "\"candidates\""@) {
        PRes::Parsed(_, i1) => match p_cand_array(s, i1) {
            PRes::Parsed(candidates, i2) => match p_next_key(s, i2, "\"page_no\""@) {
                PRes::Parsed(_, i3) => match p_dec(s, i3, usize::MAX as int) {
                    PRes::Parsed(page_no, i4) => match p_next_key(
                        s,
                        i4,
                        "\"highlighted_candidate_index\""@,
                    ) {
                        PRes::Parsed(_, i5) => match p_dec(s, i5, usize::MAX as int) {
                            PRes::Parsed(hci, i6) => match p_next_key(s, i6, "\"is_last_page\""@) {
                                PRes::Parsed(_, i7) => match p_bool(s, i7) {
                                    PRes::Parsed(ilp, i8) => match p_obj_end(s, i8) {
                                        PRes::Parsed(_, i9) => PRes::Parsed(
                                            RimeMenuV {
                                                candidates,
                                                page_no: page_no as usize,
                                                highlighted_candidate_index: hci as usize,
                                                is_last_page: ilp,
                                            },
                                            i9,
                                        ),
                                        PRes::Incomplete => PRes::Incomplete,
                                        PRes::Fail => PRes::Fail,
                                    },
                                    PRes::Incomplete => PRes::Incomplete,
                                    PRes::Fail => PRes::Fail,
                                },
                                PRes::Incomplete => PRes::Incomplete,
                                PRes::Fail => PRes::Fail,
                            },
                            PRes::Incomplete => PRes::Incomplete,
                            PRes::Fail => PRes::Fail,
                        },
                        PRes::Incomplete => PRes::Incomplete,
                        PRes::Fail => PRes::Fail,
                    },
                    PRes::Incomplete => PRes::Incomplete,
                    PRes::Fail => PRes::Fail,
                },
                PRes::Incomplete => PRes::Incomplete,
                PRes::Fail => PRes::Fail,
            },
            PRes::Incomplete => PRes::Incomplete,
            PRes::Fail => PRes::Fail,
        },
        PRes::Incomplete => PRes::Incomplete,
        PRes::Fail => PRes::Fail,
    }
}

/// An effect value: a bare tag string, or the tagged object forms.
pub open spec fn p_effect(s: Seq<char>, i: int) -> PRes<EffectV> {
    let j = skip_ws(s, i);
    if j >= s.len() {
        PRes::Incomplete
    } else if s[j] == '"' {
        match p_str_body(s, j + 1) {
            PRes::Parsed(tag, k) => {
                if tag == "stop_client"@ {
                    PRes::Parsed(EffectV::StopClient, k)
                } else if tag == "stop_server"@ {
                    PRes::Parsed(EffectV::StopServer, k)
                } else {
                    PRes::Fail
                }
            },
            PRes::Incomplete => PRes::Incomplete,
            PRes::Fail => PRes::Fail,
        }
    } else if s[j] == '{' {
        match p_obj_first_key(s, j, "\"commit_string\""@) {
            PRes::Parsed(_, i1) => match p_string(s, i1) {
                PRes::Parsed(t, i2) => match p_obj_end(s, i2) {
                    PRes::Parsed(_, i3) => PRes::Parsed(EffectV::CommitString(t), i3),
                    PRes::Incomplete => PRes::Incomplete,
                    PRes::Fail => PRes::Fail,
                },
                PRes::Incomplete => PRes::Incomplete,
                PRes::Fail => PRes::Fail,
            },
            PRes::Incomplete => PRes::Incomplete,
            PRes::Fail => match p_obj_first_key(s, j, "\"update_ui\""@) {
                PRes::Parsed(_, i1) => match p_obj_first_key(s, i1, "\"composition\""@) {
                    PRes::Parsed(_, i2) => match p_composition(s, i2) {
                        PRes::Parsed(composition, i3) => match p_next_key(s, i3, "\"menu\""@) {
                            PRes::Parsed(_, i4) => match p_menu(s, i4) {
                                PRes::Parsed(menu, i5) => match p_obj_end(s, i5) {
                                    PRes::Parsed(_, i6) => match p_obj_end(s, i6) {
                                        PRes::Parsed(_, i7) => PRes::Parsed(
                                            EffectV::UpdateUi { composition, menu },
                                            i7,
                                        ),
                                        PRes::Incomplete => PRes::Incomplete,
                                        PRes::Fail => PRes::Fail,
                                    },
                                    PRes::Incomplete => PRes::Incomplete,
                                    PRes::Fail => PRes::Fail,
                                },
                                PRes::Incomplete => PRes::Incomplete,
                                PRes::Fail => PRes::Fail,
                            },
                            PRes::Incomplete => PRes::Incomplete,
                            PRes::Fail => PRes::Fail,
                        },
                        PRes::Incomplete => PRes::Incomplete,
                        PRes::Fail => PRes::Fail,
                    },
                    PRes::Incomplete => PRes::Incomplete,
                    PRes::Fail => PRes::Fail,
                },
                PRes::Incomplete => PRes::Incomplete,
                PRes::Fail => PRes::Fail,
            },
        }
    } else {
        PRes::Fail
    }
}

/// The name of an error identifier, read back.
pub open spec fn p_error_id(s: Seq<char>, i: int) -> PRes<ErrorId> {
    match p_string(s, i) {
        PRes::Parsed(name, k) => {
            if name == "unsupported_input"@ {
                PRes::Parsed(ErrorId::UnsupportedInput, k)
            } else if name == "more_than_one_client"@ {
                PRes::Parsed(ErrorId::MoreThanOneClient, k)
            } else if name == "json_error"@ {
                PRes::Parsed(ErrorId::JsonError, k)
            } else if name == "io_error"@ {
                PRes::Parsed(ErrorId::IoError, k)
            } else if name == "option_not_found"@ {
                PRes::Parsed(ErrorId::OptionNotFound, k)
            } else if name == "config_not_found"@ {
                PRes::Parsed(ErrorId::ConfigNotFound, k)
            } else {
                PRes::Fail
            }
        },
        PRes::Incomplete => PRes::Incomplete,
        PRes::Fail => PRes::Fail,
    }
}

/// An outcome value, dispatched on its single member key.
pub open spec fn p_outcome(s: Seq<char>, i: int) -> PRes<OutcomeV> {
    match p_obj_first_key(s, i, "\"effect\""@) {
        PRes::Parsed(_, i1) => match p_effect(s, i1) {
            PRes::Parsed(e, i2) => match p_obj_end(s, i2) {
                PRes::Parsed(_, i3) => PRes::Parsed(OutcomeV::Effect(e), i3),
                PRes::Incomplete => PRes::Incomplete,
                PRes::Fail => PRes::Fail,
            },
            PRes::Incomplete => PRes::Incomplete,
            PRes::Fail => PRes::Fail,
        },
        PRes::Incomplete => PRes::Incomplete,
        PRes::Fail => match p_obj_first_key(s, i, "\"error\""@) {
            PRes::Parsed(_, i1) => match p_obj_first_key(s, i1, "\"id\""@) {
                PRes::Parsed(_, i2) => match p_error_id(s, i2) {
                    PRes::Parsed(id, i3) => match p_next_key(s, i3, "\"message\""@) {
                        PRes::Parsed(_, i4) => match p_string(s, i4) {
                            PRes::Parsed(message, i5) => match p_obj_end(s, i5) {
                                PRes::Parsed(_, i6) => match p_obj_end(s, i6) {
                                    PRes::Parsed(_, i7) => PRes::Parsed(
                                        OutcomeV::Error { id, message },
                                        i7,
                                    ),
                                    PRes::Incomplete => PRes::Incomplete,
                                    PRes::Fail => PRes::Fail,
                                },
                                PRes::Incomplete => PRes::Incomplete,
                                PRes::Fail => PRes::Fail,
                            },
                            PRes::Incomplete => PRes::Incomplete,
                            PRes::Fail => PRes::Fail,
                        },
                        PRes::Incomplete => PRes::Incomplete,
                        PRes::Fail => PRes::Fail,
                    },
                    PRes::Incomplete => PRes::Incomplete,
                    PRes::Fail => PRes::Fail,
                },
                PRes::Incomplete => PRes::Incomplete,
                PRes::Fail => PRes::Fail,
            },
            PRes::Incomplete => PRes::Incomplete,
            PRes::Fail => match p_obj_first_key(s, i, "\"schema_name\""@) {
                PRes::Parsed(_, i1) => match p_string(s, i1) {
                    PRes::Parsed(n, i2) => match p_obj_end(s, i2) {
                        PRes::Parsed(_, i3) => PRes::Parsed(OutcomeV::SchemaName(n), i3),
                        PRes::Incomplete => PRes::Incomplete,
                        PRes::Fail => PRes::Fail,
                    },
                    PRes::Incomplete => PRes::Incomplete,
                    PRes::Fail => PRes::Fail,
                },
                PRes::Incomplete => PRes::Incomplete,
                PRes::Fail => match p_obj_first_key(s, i, "\"config_value_integer\""@) {
                    PRes::Parsed(_, i1) => match p_i64(s, i1) {
                        PRes::Parsed(v, i2) => match p_obj_end(s, i2) {
                            PRes::Parsed(_, i3) => PRes::Parsed(OutcomeV::ConfigValueInteger(v), i3),
                            PRes::Incomplete => PRes::Incomplete,
                            PRes::Fail => PRes::Fail,
                        },
                        PRes::Incomplete => PRes::Incomplete,
                        PRes::Fail => PRes::Fail,
                    },
                    PRes::Incomplete => PRes::Incomplete,
                    PRes::Fail => PRes::Fail,
                },
            },
        },
    }
}

/// A whole reply object.
pub open spec fn p_reply(s: Seq<char>, i: int) -> PRes<ReplyV> {
    match p_obj_first_key(s, i, "\"id\""@) {
        PRes::Parsed(_, i1) => match p_null_or_string(s, i1) {
            PRes::Parsed(id, i2) => match p_next_key(s, i2, "\"outcome\""@) {
                PRes::Parsed(_, i3) => match p_outcome(s, i3) {
                    PRes::Parsed(outcome, i4) => match p_obj_end(s, i4) {
                        PRes::Parsed(_, i5) => PRes::Parsed(ReplyV { id, outcome }, i5),
                        PRes::Incomplete => PRes::Incomplete,
                        PRes::Fail => PRes::Fail,
                    },
                    PRes::Incomplete => PRes::Incomplete,
                    PRes::Fail => PRes::Fail,
                },
                PRes::Incomplete => PRes::Incomplete,
                PRes::Fail => PRes::Fail,
            },
            PRes::Incomplete => PRes::Incomplete,
            PRes::Fail => PRes::Fail,
        },
        PRes::Incomplete => PRes::Incomplete,
        PRes::Fail => PRes::Fail,
    }
}

} // verus!
