//! The executable serializer: builds exactly the canonical text of
//! `json_model`'s serialization functions.
use vstd::prelude::*;

use crate::json_model::{
    dec_nat, esc_char, ser_bool, ser_call, ser_candidate, ser_candidates, ser_composition,
    ser_effect, ser_error_id, ser_i64, ser_menu, ser_outcome, ser_reply, ser_request, ser_string,
    ser_str_body, ser_u32, ser_usize,
};
use crate::json_request_processor::{ErrorId, Outcome, Reply, Request};
use crate::rime_api::{RimeCandidate, RimeComposition, RimeMenu};
use crate::text::{char_from_u32, push_str_chars, string_from_chars};
use crate::{Call, Effect};

verus! {

/// Appending one char appends its escape to the serialized body.
pub proof fn lemma_ser_str_body_snoc(t: Seq<char>, c: char)
    ensures
        ser_str_body(t.push(c)) == ser_str_body(t) + esc_char(c),
    decreases t.len(),
{
    if t.len() == 0 {
        assert(t.push(c)[0] == c);
        assert(t.push(c).drop_first() =~= Seq::<char>::empty());
        assert(ser_str_body(Seq::<char>::empty()) == Seq::<char>::empty());
        assert(ser_str_body(t.push(c)) =~= esc_char(c));
        assert(ser_str_body(t) + esc_char(c) =~= esc_char(c));
    } else {
        lemma_ser_str_body_snoc(t.drop_first(), c);
        assert(t.push(c).drop_first() =~= t.drop_first().push(c));
        assert(t.push(c)[0] == t[0]);
        assert(ser_str_body(t.push(c)) == esc_char(t[0]) + (ser_str_body(t.drop_first())
            + esc_char(c)));
        assert(esc_char(t[0]) + (ser_str_body(t.drop_first()) + esc_char(c)) =~= (esc_char(t[0])
            + ser_str_body(t.drop_first())) + esc_char(c));
    }
}

/// Append the escaped body of `s`.
fn write_str_body(out: &mut Vec<char>, s: &str)
    ensures
        final(out)@ == old(out)@ + ser_str_body(s@),
{
    let n = s.unicode_len();
    let mut i: usize = 0;
    proof {
        assert(s@.subrange(0, 0) =~= Seq::<char>::empty());
        assert(old(out)@ + ser_str_body(s@.subrange(0, 0)) =~= old(out)@);
    }
    while i < n
        invariant
            n == s@.len(),
            i <= n,
            out@ == old(out)@ + ser_str_body(s@.subrange(0, i as int)),
        decreases n - i,
    {
        let c = s.get_char(i);
        let ghost pre = s@.subrange(0, i as int);
        if c == '"' {
            out.push('\\');
            out.push('"');
            assert(out@ =~= old(out)@ + ser_str_body(pre) + esc_char(c));
        } else if c == '\\' {
            out.push('\\');
            out.push('\\');
            assert(out@ =~= old(out)@ + ser_str_body(pre) + esc_char(c));
        } else {
            let v = c as u32;
            if v < 0x20 {
                out.push('\\');
                out.push('u');
                out.push('0');
                out.push('0');
                let hi = v / 16;
                let lo = v % 16;
                let hc = if hi < 10 {
                    0x30 + hi
                } else {
                    0x57 + hi
                };
                let lc = if lo < 10 {
                    0x30 + lo
                } else {
                    0x57 + lo
                };
                match (char_from_u32(hc), char_from_u32(lc)) {
                    (Some(h), Some(l)) => {
                        proof {
                            vstd::utf8::char_u32_cast(h, hc);
                            vstd::utf8::char_u32_cast(l, lc);
                        }
                        out.push(h);
                        out.push(l);
                        assert(out@ =~= old(out)@ + ser_str_body(pre) + esc_char(c));
                    },
                    _ => {
                        proof {
                            assert(false);
                        }
                    },
                }
            } else {
                out.push(c);
                assert(out@ =~= old(out)@ + ser_str_body(pre) + esc_char(c));
            }
        }
        proof {
            lemma_ser_str_body_snoc(pre, c);
            assert(pre.push(c) =~= s@.subrange(0, i + 1));
            assert(old(out)@ + ser_str_body(pre) + esc_char(c) =~= old(out)@ + ser_str_body(
                s@.subrange(0, i + 1),
            ));
        }
        i = i + 1;
    }
    proof {
        assert(s@.subrange(0, n as int) =~= s@);
    }
}

/// Append a whole string token, quotes and escapes included.
pub fn write_string(out: &mut Vec<char>, s: &str)
    ensures
        final(out)@ == old(out)@ + ser_string(s@),
{
    out.push('"');
    write_str_body(out, s);
    out.push('"');
    assert(out@ =~= old(out)@ + ser_string(s@));
}

/// Append the decimal digits of `v`.
pub fn write_dec(out: &mut Vec<char>, v: u64)
    ensures
        final(out)@ == old(out)@ + dec_nat(v as nat),
    decreases v,
{
    if v >= 10 {
        write_dec(out, v / 10);
    }
    let d = (v % 10) as u32;
    let dc: u32 = 0x30 + d;
    match char_from_u32(dc) {
        Some(c) => {
            proof {
                vstd::utf8::char_u32_cast(c, dc);
            }
            out.push(c);
        },
        None => {
            proof {
                assert(false);
            }
        },
    }
    assert(out@ =~= old(out)@ + dec_nat(v as nat));
}

/// Append a signed 64-bit decimal.
pub fn write_i64(out: &mut Vec<char>, v: i64)
    ensures
        final(out)@ == old(out)@ + ser_i64(v),
{
    if v < 0 {
        out.push('-');
        let m: u64 = if v == i64::MIN {
            9223372036854775808u64
        } else {
            (-v) as u64
        };
        assert(m as nat == (-(v as int)) as nat);
        write_dec(out, m);
        assert(out@ =~= old(out)@ + ser_i64(v));
    } else {
        write_dec(out, v as u64);
        assert(out@ =~= old(out)@ + ser_i64(v));
    }
}

/// Append `true` or `false`.
pub fn write_bool(out: &mut Vec<char>, b: bool)
    ensures
        final(out)@ == old(out)@ + ser_bool(b),
{
    if b {
        push_str_chars(out, "true");
    } else {
        push_str_chars(out, "false");
    }
}

/// Append the string token of an error identifier.
pub fn write_error_id(out: &mut Vec<char>, id: &ErrorId)
    ensures
        final(out)@ == old(out)@ + ser_error_id(*id),
{
    match id {
        ErrorId::UnsupportedInput => push_str_chars(out, "\"unsupported_input\""),
        ErrorId::MoreThanOneClient => push_str_chars(out, "\"more_than_one_client\""),
        ErrorId::JsonError => push_str_chars(out, "\"json_error\""),
        ErrorId::IoError => push_str_chars(out, "\"io_error\""),
        ErrorId::OptionNotFound => push_str_chars(out, "\"option_not_found\""),
        ErrorId::ConfigNotFound => push_str_chars(out, "\"config_not_found\""),
    }
}

/// Append a call in its tagged form.
pub fn write_call(out: &mut Vec<char>, c: &Call)
    ensures
        final(out)@ == old(out)@ + ser_call(c@),
{
    match c {
        Call::ProcessKey { keycode, mask } => {
            push_str_chars(out, "{\"method\":\"process_key\",\"params\":{\"keycode\":");
            write_dec(out, *keycode as u64);
            push_str_chars(out, ",\"mask\":");
            write_dec(out, *mask as u64);
            push_str_chars(out, "}}");
            assert(out@ =~= old(out)@ + ser_call(c@));
        },
        Call::SchemaName => {
            push_str_chars(out, "{\"method\":\"schema_name\"}");
            assert(out@ =~= old(out)@ + ser_call(c@));
        },
        Call::ConfigValueInteger { config_id, option_key } => {
            push_str_chars(out, "{\"method\":\"config_value_integer\",\"params\":{\"config_id\":");
            write_string(out, config_id.as_str());
            push_str_chars(out, ",\"option_key\":");
            write_string(out, option_key.as_str());
            push_str_chars(out, "}}");
            assert(out@ =~= old(out)@ + ser_call(c@));
        },
        Call::ClearComposition => {
            push_str_chars(out, "{\"method\":\"clear_composition\"}");
            assert(out@ =~= old(out)@ + ser_call(c@));
        },
        Call::StopClient => {
            push_str_chars(out, "{\"method\":\"stop_client\"}");
            assert(out@ =~= old(out)@ + ser_call(c@));
        },
        Call::StopServer => {
            push_str_chars(out, "{\"method\":\"stop_server\"}");
            assert(out@ =~= old(out)@ + ser_call(c@));
        },
    }
}

/// Append a whole request object.
pub fn write_request(out: &mut Vec<char>, r: &Request)
    ensures
        final(out)@ == old(out)@ + ser_request(r@),
{
    push_str_chars(out, "{\"id\":");
    write_string(out, r.id.as_str());
    push_str_chars(out, ",\"call\":");
    write_call(out, &r.call);
    push_str_chars(out, "}");
    assert(out@ =~= old(out)@ + ser_request(r@));
}

/// Append a composition object.
pub fn write_composition(out: &mut Vec<char>, c: &RimeComposition)
    ensures
        final(out)@ == old(out)@ + ser_composition(c@),
{
    push_str_chars(out, "{\"length\":");
    write_dec(out, c.length as u64);
    push_str_chars(out, ",\"cursor_pos\":");
    write_dec(out, c.cursor_pos as u64);
    push_str_chars(out, ",\"sel_start\":");
    write_dec(out, c.sel_start as u64);
    push_str_chars(out, ",\"sel_end\":");
    write_dec(out, c.sel_end as u64);
    push_str_chars(out, ",\"preedit\":");
    write_string(out, c.preedit.as_str());
    push_str_chars(out, "}");
    assert(out@ =~= old(out)@ + ser_composition(c@));
}

/// Append one candidate object.
pub fn write_candidate(out: &mut Vec<char>, c: &RimeCandidate)
    ensures
        final(out)@ == old(out)@ + ser_candidate(c@),
{
    push_str_chars(out, "{\"text\":");
    write_string(out, c.text.as_str());
    push_str_chars(out, ",\"comment\":");
    match &c.comment {
        Some(s) => write_string(out, s.as_str()),
        None => push_str_chars(out, "null"),
    }
    push_str_chars(out, "}");
    assert(out@ =~= old(out)@ + ser_candidate(c@));
}

/// Append the members of the candidate array from `i` on.
fn write_candidates_from(out: &mut Vec<char>, cs: &Vec<RimeCandidate>, i: usize)
    requires
        i <= cs@.len(),
    ensures
        final(out)@ == old(out)@ + ser_candidates(
            cs@.map_values(|c: RimeCandidate| c@).skip(i as int),
        ),
    decreases cs@.len() - i,
{
    let ghost view = cs@.map_values(|c: RimeCandidate| c@);
    if i < cs.len() {
        write_candidate(out, &cs[i]);
        proof {
            assert(view.skip(i as int)[0] == view[i as int]);
            assert(view[i as int] == cs@[i as int]@);
        }
        if i + 1 < cs.len() {
            out.push(',');
            write_candidates_from(out, cs, i + 1);
            proof {
                assert(view.skip(i as int).drop_first() =~= view.skip(i + 1));
                assert(view.skip(i as int).len() > 1);
                assert(out@ =~= old(out)@ + ser_candidates(view.skip(i as int)));
            }
        } else {
            proof {
                assert(view.skip(i as int).len() == 1);
                assert(out@ =~= old(out)@ + ser_candidates(view.skip(i as int)));
            }
        }
    } else {
        proof {
            assert(view.skip(i as int).len() == 0);
            assert(out@ =~= old(out)@ + ser_candidates(view.skip(i as int)));
        }
    }
}

/// Append a menu object.
pub fn write_menu(out: &mut Vec<char>, m: &RimeMenu)
    ensures
        final(out)@ == old(out)@ + ser_menu(m@),
{
    push_str_chars(out, "{\"candidates\":[");
    write_candidates_from(out, &m.candidates, 0);
    proof {
        assert(m.candidates@.map_values(|c: RimeCandidate| c@).skip(0)
            =~= m.candidates@.map_values(|c: RimeCandidate| c@));
    }
    push_str_chars(out, "],\"page_no\":");
    write_dec(out, m.page_no as u64);
    push_str_chars(out, ",\"highlighted_candidate_index\":");
    write_dec(out, m.highlighted_candidate_index as u64);
    push_str_chars(out, ",\"is_last_page\":");
    write_bool(out, m.is_last_page);
    push_str_chars(out, "}");
    assert(out@ =~= old(out)@ + ser_menu(m@));
}

/// Append an effect value.
pub fn write_effect(out: &mut Vec<char>, e: &Effect)
    ensures
        final(out)@ == old(out)@ + ser_effect(e@),
{
    match e {
        Effect::StopClient => {
            push_str_chars(out, "\"stop_client\"");
            assert(out@ =~= old(out)@ + ser_effect(e@));
        },
        Effect::StopServer => {
            push_str_chars(out, "\"stop_server\"");
            assert(out@ =~= old(out)@ + ser_effect(e@));
        },
        Effect::CommitString(s) => {
            push_str_chars(out, "{\"commit_string\":");
            write_string(out, s.as_str());
            push_str_chars(out, "}");
            assert(out@ =~= old(out)@ + ser_effect(e@));
        },
        Effect::UpdateUi { composition, menu } => {
            push_str_chars(out, "{\"update_ui\":{\"composition\":");
            write_composition(out, composition);
            push_str_chars(out, ",\"menu\":");
            write_menu(out, menu);
            push_str_chars(out, "}}");
            assert(out@ =~= old(out)@ + ser_effect(e@));
        },
    }
}

/// Append an outcome value.
pub fn write_outcome(out: &mut Vec<char>, o: &Outcome)
    ensures
        final(out)@ == old(out)@ + ser_outcome(o@),
{
    match o {
        Outcome::Effect(e) => {
            push_str_chars(out, "{\"effect\":");
            write_effect(out, e);
            push_str_chars(out, "}");
            assert(out@ =~= old(out)@ + ser_outcome(o@));
        },
        Outcome::Error { id, message } => {
            push_str_chars(out, "{\"error\":{\"id\":");
            write_error_id(out, id);
            push_str_chars(out, ",\"message\":");
            write_string(out, message.as_str());
            push_str_chars(out, "}}");
            assert(out@ =~= old(out)@ + ser_outcome(o@));
        },
        Outcome::SchemaName(s) => {
            push_str_chars(out, "{\"schema_name\":");
            write_string(out, s.as_str());
            push_str_chars(out, "}");
            assert(out@ =~= old(out)@ + ser_outcome(o@));
        },
        Outcome::ConfigValueInteger(v) => {
            push_str_chars(out, "{\"config_value_integer\":");
            write_i64(out, *v);
            push_str_chars(out, "}");
            assert(out@ =~= old(out)@ + ser_outcome(o@));
        },
    }
}

/// Append a whole reply object.
pub fn write_reply(out: &mut Vec<char>, r: &Reply)
    ensures
        final(out)@ == old(out)@ + ser_reply(r@),
{
    push_str_chars(out, "{\"id\":");
    match &r.id {
        Some(s) => write_string(out, s.as_str()),
        None => push_str_chars(out, "null"),
    }
    push_str_chars(out, ",\"outcome\":");
    write_outcome(out, &r.outcome);
    push_str_chars(out, "}");
    assert(out@ =~= old(out)@ + ser_reply(r@));
}

/// The canonical text of a request.
pub fn serialize_request(r: &Request) -> (out: Vec<char>)
    ensures
        out@ == ser_request(r@),
{
    let mut out: Vec<char> = Vec::new();
    write_request(&mut out, r);
    assert(out@ =~= ser_request(r@));
    out
}

/// The canonical text of a reply.
pub fn serialize_reply(r: &Reply) -> (out: Vec<char>)
    ensures
        out@ == ser_reply(r@),
{
    let mut out: Vec<char> = Vec::new();
    write_reply(&mut out, r);
    assert(out@ =~= ser_reply(r@));
    out
}

/// The canonical text of a request, as a string.
pub fn serialize_request_string(r: &Request) -> (out: String)
    ensures
        out@ == ser_request(r@),
{
    let chars = serialize_request(r);
    string_from_chars(&chars)
}

/// The canonical text of a reply, as a string.
pub fn serialize_reply_string(r: &Reply) -> (out: String)
    ensures
        out@ == ser_reply(r@),
{
    let chars = serialize_reply(r);
    string_from_chars(&chars)
}

/// The canonical text of a request, UTF-8 encoded for the socket.
pub fn serialize_request_bytes(r: &Request) -> (out: Vec<u8>)
    ensures
        out@ == vstd::utf8::encode_utf8(ser_request(r@)),
{
    let s = serialize_request_string(r);
    s.as_str().as_bytes_vec()
}

/// The canonical text of a reply, UTF-8 encoded for the socket.
pub fn serialize_reply_bytes(r: &Reply) -> (out: Vec<u8>)
    ensures
        out@ == vstd::utf8::encode_utf8(ser_reply(r@)),
{
    let s = serialize_reply_string(r);
    s.as_str().as_bytes_vec()
}

} // verus!
