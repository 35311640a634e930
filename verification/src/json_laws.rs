//! Round-trip laws of the wire text: parsing the canonical serialization
//! of a value yields exactly that value, wherever the text stands in a
//! larger buffer.
use vstd::prelude::*;

use crate::rime_api::{RimeCandidateV, RimeCompositionV, RimeMenuV};
use crate::{CallV, EffectV};
use crate::json_request_processor::{ReplyV, RequestV};
use crate::json_request_processor::{ErrorId, OutcomeV};

use crate::json_model::{
    p_bool, p_candidate, p_cand_list, p_composition, p_i64, p_null_or_string, ser_bool,
    p_call, p_cand_array, p_effect, p_error_id, p_menu, p_outcome, p_reply, p_request,
    ser_call, ser_reply, ser_request, ser_u32, ser_candidate, ser_candidates, ser_composition, ser_effect, ser_error_id, ser_i64, ser_menu, ser_outcome,
    dec_nat, digit_char, dval, esc_char, hexv, hex_char, is_digit, is_ws, p_char, p_dec,
    p_dec_rec, p_lit, p_next_key, p_obj_end, p_obj_first_key, p_string, p_str_body, ser_string,
    ser_str_body, skip_ws, PRes,
};

verus! {

/// Ten to the `n`.
pub open spec fn pow10(n: nat) -> int
    decreases n,
{
    if n == 0 {
        1
    } else {
        10 * pow10((n - 1) as nat)
    }
}

/// `skip_ws` stands still on a non-whitespace char.
pub proof fn lemma_skip_ws_still(s: Seq<char>, i: int)
    requires
        0 <= i,
        i >= s.len() || !is_ws(s[i]),
    ensures
        skip_ws(s, i) == i,
{
}

/// A literal standing in the text parses as itself.
pub proof fn lemma_p_lit(s: Seq<char>, i: int, lit: Seq<char>)
    requires
        0 <= i,
        i + lit.len() <= s.len(),
        s.subrange(i, i + lit.len()) == lit,
    ensures
        p_lit(s, i, lit) == PRes::<()>::Parsed((), i + lit.len()),
    decreases lit.len(),
{
    if lit.len() == 0 {
    } else {
        assert(s[i] == s.subrange(i, i + lit.len())[0]);
        assert(s[i] == lit[0]);
        assert(s.subrange(i + 1, i + 1 + (lit.len() - 1)) =~= lit.drop_first()) by {
            assert forall|k: int| 0 <= k < lit.len() - 1 implies s.subrange(
                i + 1,
                i + 1 + (lit.len() - 1),
            )[k] == lit.drop_first()[k] by {
                assert(s.subrange(i, i + lit.len())[k + 1] == lit[k + 1]);
            }
        }
        lemma_p_lit(s, i + 1, lit.drop_first());
    }
}

/// A helper for decomposing: the text holds `a + b` at `i` exactly when it
/// holds `a` at `i` and `b` right after.
pub proof fn lemma_region_split(s: Seq<char>, i: int, a: Seq<char>, b: Seq<char>)
    requires
        0 <= i,
        i + a.len() + b.len() <= s.len(),
        s.subrange(i, i + a.len() + b.len()) == a + b,
    ensures
        s.subrange(i, i + a.len()) == a,
        s.subrange(i + a.len(), i + a.len() + b.len()) == b,
{
    assert(s.subrange(i, i + a.len()) =~= a) by {
        assert forall|k: int| 0 <= k < a.len() implies s.subrange(i, i + a.len())[k] == a[k] by {
            assert(s.subrange(i, i + a.len() + b.len())[k] == (a + b)[k]);
        }
    }
    let la = a.len() as int;
    assert(s.subrange(i + la, i + la + b.len()) =~= b) by {
        assert forall|k: int| 0 <= k < b.len() implies s.subrange(i + la, i + la + b.len())[k]
            == b[k] by {
            assert(s.subrange(i, i + la + b.len())[la + k] == (a + b)[la + k]);
            assert((a + b)[la + k] == b[k]);
            assert(s.subrange(i + la, i + la + b.len())[k] == s[i + la + k]);
            assert(s.subrange(i, i + la + b.len())[la + k] == s[i + la + k]);
        }
    }
}

/// `{`, a key and `:`, standing literally in the text.
pub proof fn lemma_p_obj_first_key(s: Seq<char>, i: int, key: Seq<char>)
    requires
        0 <= i,
        key.len() > 0,
        key[0] == '"',
        i + key.len() + 2 <= s.len(),
        s.subrange(i, i + key.len() + 2) == seq!['{'] + key + seq![':'],
    ensures
        p_obj_first_key(s, i, key) == PRes::<()>::Parsed((), i + key.len() + 2),
{
    let region = seq!['{'] + key + seq![':'];
    assert(s[i] == region[0]);
    assert(s[i] == '{');
    lemma_skip_ws_still(s, i);
    assert(p_char(s, i, '{') == PRes::<()>::Parsed((), i + 1));
    assert(s.subrange(i + 1, i + 1 + key.len()) =~= key) by {
        assert forall|k: int| 0 <= k < key.len() implies s.subrange(i + 1, i + 1 + key.len())[k]
            == key[k] by {
            assert(s.subrange(i, i + key.len() + 2)[k + 1] == region[k + 1]);
        }
    }
    assert(s[i + 1] == key[0]);
    lemma_skip_ws_still(s, i + 1);
    lemma_p_lit(s, i + 1, key);
    assert(s[i + 1 + key.len()] == region[key.len() as int + 1]);
    assert(s[i + 1 + key.len()] == ':');
    lemma_skip_ws_still(s, i + 1 + key.len());
}

/// `,`, a key and `:`, standing literally in the text.
pub proof fn lemma_p_next_key(s: Seq<char>, i: int, key: Seq<char>)
    requires
        0 <= i,
        key.len() > 0,
        key[0] == '"',
        i + key.len() + 2 <= s.len(),
        s.subrange(i, i + key.len() + 2) == seq![','] + key + seq![':'],
    ensures
        p_next_key(s, i, key) == PRes::<()>::Parsed((), i + key.len() + 2),
{
    let region = seq![','] + key + seq![':'];
    assert(s[i] == region[0]);
    assert(s[i] == ',');
    lemma_skip_ws_still(s, i);
    assert(p_char(s, i, ',') == PRes::<()>::Parsed((), i + 1));
    assert(s.subrange(i + 1, i + 1 + key.len()) =~= key) by {
        assert forall|k: int| 0 <= k < key.len() implies s.subrange(i + 1, i + 1 + key.len())[k]
            == key[k] by {
            assert(s.subrange(i, i + key.len() + 2)[k + 1] == region[k + 1]);
        }
    }
    assert(s[i + 1] == key[0]);
    lemma_skip_ws_still(s, i + 1);
    lemma_p_lit(s, i + 1, key);
    assert(s[i + 1 + key.len()] == region[key.len() as int + 1]);
    assert(s[i + 1 + key.len()] == ':');
    lemma_skip_ws_still(s, i + 1 + key.len());
}

/// A closing `}` standing in the text.
pub proof fn lemma_p_obj_end(s: Seq<char>, i: int)
    requires
        0 <= i < s.len(),
        s[i] == '}',
    ensures
        p_obj_end(s, i) == PRes::<()>::Parsed((), i + 1),
{
    lemma_skip_ws_still(s, i);
}


/// Reading back the hex digit char of `n`.
pub proof fn lemma_hexv_hex_char(n: u32)
    requires
        n < 16,
    ensures
        hexv(hex_char(n)) == n as int,
{
}

/// The serialized body of a string, followed by its closing quote, parses
/// back to exactly that string.
pub proof fn lemma_p_str_body_ser(s: Seq<char>, i: int, t: Seq<char>)
    requires
        0 <= i,
        i + ser_str_body(t).len() + 1 <= s.len(),
        s.subrange(i, i + ser_str_body(t).len() + 1) == ser_str_body(t) + seq!['"'],
    ensures
        p_str_body(s, i) == PRes::Parsed(t, i + ser_str_body(t).len() + 1),
    decreases t.len(),
{
    let body = ser_str_body(t);
    let region = body + seq!['"'];
    if t.len() == 0 {
        assert(body =~= Seq::<char>::empty());
        assert(s[i] == region[0]);
        assert(s[i] == '"');
        assert(p_str_body(s, i) == PRes::Parsed(Seq::<char>::empty(), i + 1));
        assert(t =~= Seq::<char>::empty());
    } else {
        let c = t[0];
        let e = esc_char(c);
        let rest = t.drop_first();
        let brest = ser_str_body(rest);
        let le = e.len() as int;
        assert(body == e + brest);
        assert(s.subrange(i, i + le + (brest.len() + 1)) =~= e + (brest + seq!['"'])) by {
            assert(region =~= e + (brest + seq!['"']));
        }
        lemma_region_split(s, i, e, brest + seq!['"']);
        let end = i + body.len() + 1;
        assert(i + le + brest.len() + 1 == end);
        lemma_p_str_body_ser(s, i + le, rest);
        assert(p_str_body(s, i + le) == PRes::Parsed(rest, end));
        vstd::utf8::char_u32_cast(c, c as u32);
        assert(s.subrange(i, i + le) == e);
        if c == '"' {
            assert(s.subrange(i, i + le)[0] == e[0] && s.subrange(i, i + le)[1] == e[1]);
            assert(s[i] == '\\' && s[i + 1] == '"');
            assert(p_str_body(s, i) == PRes::Parsed(seq![c] + rest, end));
        } else if c == '\\' {
            assert(s.subrange(i, i + le)[0] == e[0] && s.subrange(i, i + le)[1] == e[1]);
            assert(s[i] == '\\' && s[i + 1] == '\\');
            assert(p_str_body(s, i) == PRes::Parsed(seq![c] + rest, end));
        } else if (c as u32) < 0x20 {
            let v = c as u32;
            assert(s.subrange(i, i + le)[0] == e[0] && s.subrange(i, i + le)[1] == e[1]
                && s.subrange(i, i + le)[2] == e[2] && s.subrange(i, i + le)[3] == e[3]
                && s.subrange(i, i + le)[4] == e[4] && s.subrange(i, i + le)[5] == e[5]);
            assert(s[i] == '\\' && s[i + 1] == 'u' && s[i + 2] == '0' && s[i + 3] == '0' && s[i
                + 4] == hex_char(v / 16) && s[i + 5] == hex_char(v % 16));
            lemma_hexv_hex_char(v / 16);
            lemma_hexv_hex_char(v % 16);
            assert(hexv(s[i + 2]) == 0 && hexv(s[i + 3]) == 0);
            let vv = hexv(s[i + 2]) * 4096 + hexv(s[i + 3]) * 256 + hexv(s[i + 4]) * 16 + hexv(
                s[i + 5],
            );
            assert(vv == v);
            assert(p_str_body(s, i) == PRes::Parsed(seq![c] + rest, end));
        } else {
            assert(s.subrange(i, i + le)[0] == e[0]);
            assert(s[i] == c);
            assert(s[i] != '"' && s[i] != '\\' && !((s[i] as u32) < 0x20));
            assert(p_str_body(s, i) == PRes::Parsed(seq![c] + rest, end));
        }
        assert(seq![c] + rest =~= t);
    }
}

/// A whole serialized string token parses back to its value.
pub proof fn lemma_p_string_ser(s: Seq<char>, i: int, t: Seq<char>)
    requires
        0 <= i,
        i + ser_string(t).len() <= s.len(),
        s.subrange(i, i + ser_string(t).len()) == ser_string(t),
    ensures
        p_string(s, i) == PRes::Parsed(t, i + ser_string(t).len()),
{
    let tok = ser_string(t);
    let body = ser_str_body(t);
    assert(tok.len() == body.len() + 2);
    assert(s[i] == tok[0]);
    assert(s[i] == '"');
    lemma_skip_ws_still(s, i);
    assert(s.subrange(i + 1, i + 1 + (body.len() + 1)) =~= body + seq!['"']) by {
        assert forall|k: int| 0 <= k < body.len() + 1 implies s.subrange(
            i + 1,
            i + 1 + (body.len() + 1),
        )[k] == (body + seq!['"'])[k] by {
            assert(s.subrange(i, i + tok.len())[k + 1] == tok[k + 1]);
            assert(tok =~= seq!['"'] + (body + seq!['"']));
        }
    }
    lemma_p_str_body_ser(s, i + 1, t);
}

/// Every char of a decimal rendering is a digit, and there is at least one.
pub proof fn lemma_dec_nat_digits(v: nat)
    ensures
        dec_nat(v).len() >= 1,
        forall|k: int| 0 <= k < dec_nat(v).len() ==> is_digit(#[trigger] dec_nat(v)[k]),
        forall|k: int| 0 <= k < dec_nat(v).len() ==> 0 <= dval(#[trigger] dec_nat(v)[k]) <= 9,
    decreases v,
{
    if v < 10 {
        assert(dec_nat(v)[0] == digit_char(v as int));
    } else {
        lemma_dec_nat_digits(v / 10);
        let pre = dec_nat(v / 10);
        assert(forall|k: int| 0 <= k < pre.len() ==> dec_nat(v)[k] == pre[k]);
        assert(dec_nat(v)[pre.len() as int] == digit_char((v % 10) as int));
    }
}

/// A positive number never renders with a leading zero.
pub proof fn lemma_dec_nat_leading(v: nat)
    requires
        v > 0,
    ensures
        dec_nat(v)[0] != '0',
    decreases v,
{
    if v < 10 {
        assert(dec_nat(v)[0] == digit_char(v as int));
    } else {
        lemma_dec_nat_leading(v / 10);
        lemma_dec_nat_digits(v / 10);
        assert(dec_nat(v)[0] == dec_nat(v / 10)[0]);
    }
}

/// Consuming the digits of `v` folds them into the accumulator.
pub proof fn lemma_p_dec_run(s: Seq<char>, i: int, v: nat, acc: int, bound: int)
    requires
        0 <= i,
        0 <= acc,
        0 <= bound,
        i + dec_nat(v).len() <= s.len(),
        s.subrange(i, i + dec_nat(v).len()) == dec_nat(v),
        acc * pow10(dec_nat(v).len()) + v <= bound,
    ensures
        p_dec_rec(s, i, acc, bound) == p_dec_rec(
            s,
            i + dec_nat(v).len(),
            acc * pow10(dec_nat(v).len()) + v,
            bound,
        ),
    decreases v,
{
    let d = dec_nat(v);
    let l = d.len() as int;
    lemma_dec_nat_digits(v);
    if v < 10 {
        assert(s[i] == d[0]);
        assert(d[0] == digit_char(v as int));
        assert(is_digit(s[i]));
        assert(dval(s[i]) == v);
        assert(pow10(0) == 1);
        assert(pow10(1) == 10);
        let a2 = acc * 10 + v;
        assert(a2 <= bound);
        assert(p_dec_rec(s, i, acc, bound) == p_dec_rec(s, i + 1, a2, bound));
    } else {
        let pre = dec_nat(v / 10);
        let lp = pre.len() as int;
        assert(d == pre + seq![digit_char((v % 10) as int)]);
        lemma_region_split(s, i, pre, seq![digit_char((v % 10) as int)]);
        let mid = acc * pow10(pre.len()) + (v / 10);
        lemma_pow10_pos(pre.len());
        assert(pow10(d.len()) == 10 * pow10(pre.len())) by {
            assert(d.len() == pre.len() + 1);
        }
        assert(mid * 10 + (v % 10) == acc * pow10(d.len()) + v) by (nonlinear_arith)
            requires
                mid == acc * pow10(pre.len()) + (v / 10),
                pow10(d.len()) == 10 * pow10(pre.len()),
                v >= 10,
        ;
        assert(0 <= v % 10 <= 9);
        assert(mid >= 0) by (nonlinear_arith)
            requires
                acc >= 0,
                pow10(pre.len()) >= 1,
                v >= 10,
                mid == acc * pow10(pre.len()) + (v / 10),
        ;
        assert(mid <= bound);
        lemma_p_dec_run(s, i, v / 10, acc, bound);
        assert(p_dec_rec(s, i, acc, bound) == p_dec_rec(s, i + lp, mid, bound));
        assert(s.subrange(i + lp, i + lp + 1)[0] == digit_char((v % 10) as int));
        assert(s[i + lp] == digit_char((v % 10) as int));
        assert(is_digit(s[i + lp]));
        assert(dval(s[i + lp]) == v % 10);
        assert(p_dec_rec(s, i + lp, mid, bound) == p_dec_rec(s, i + lp + 1, mid * 10 + (v % 10),
            bound));
    }
}

/// `pow10` is at least one.
pub proof fn lemma_pow10_pos(n: nat)
    ensures
        pow10(n) >= 1,
    decreases n,
{
    if n > 0 {
        lemma_pow10_pos((n - 1) as nat);
    }
}

/// A serialized decimal, followed by a non-digit (or the end of the text),
/// parses back to its value.
pub proof fn lemma_p_dec_ser(s: Seq<char>, i: int, v: nat, bound: int)
    requires
        0 <= i,
        v <= bound,
        i + dec_nat(v).len() <= s.len(),
        s.subrange(i, i + dec_nat(v).len()) == dec_nat(v),
        i + dec_nat(v).len() == s.len() || !is_digit(s[i + dec_nat(v).len()]),
    ensures
        p_dec(s, i, bound) == PRes::Parsed(v as int, i + dec_nat(v).len()),
{
    let d = dec_nat(v);
    let l = d.len() as int;
    lemma_dec_nat_digits(v);
    assert(s[i] == d[0]);
    assert(is_digit(s[i]));
    assert(!is_ws(s[i]));
    lemma_skip_ws_still(s, i);
    if v == 0 {
        assert(d.len() == 1);
    } else if v < 10 {
        assert(d[0] == digit_char(v as int));
        assert(s[i] != '0');
    } else {
        lemma_dec_nat_leading(v);
        assert(s[i] != '0');
    }
    if v == 0 && i + 1 < s.len() {
        assert(!is_digit(s[i + l]));
        assert(!is_digit(s[i + 1]));
    }
    lemma_pow10_pos(d.len());
    lemma_p_dec_run(s, i, v, 0, bound);
    assert(0 * pow10(d.len()) + v == v) by (nonlinear_arith);
    assert(p_dec_rec(s, i, 0, bound) == p_dec_rec(s, i + l, v as int, bound));
    assert(p_dec_rec(s, i + l, v as int, bound) == PRes::Parsed(v as int, i + l));
}

    /// A serialized composition parses back to its value.
    #[verifier::rlimit(100)]
    #[verifier::spinoff_prover]
    pub proof fn lemma_p_composition_ser(s: Seq<char>, i: int, c: RimeCompositionV)
        requires
            0 <= i,
            i + ser_composition(c).len() <= s.len(),
            s.subrange(i, i + ser_composition(c).len()) == ser_composition(c),
        ensures
            p_composition(s, i) == PRes::Parsed(c, i + ser_composition(c).len()),
    {
    let w = ser_composition(c);
    let o0: int = i;
    assert(w =~= "{\"length\":"@ + (dec_nat(c.length as nat) + (",\"cursor_pos\":"@ + (dec_nat(c.cursor_pos as nat) + (",\"sel_start\":"@ + (dec_nat(c.sel_start as nat) + (",\"sel_end\":"@ + (dec_nat(c.sel_end as nat) + (",\"preedit\":"@ + (ser_string(c.preedit) + ("}"@)))))))))));
    assert(s.subrange(o0, o0 + (w).len()) == w);
    let o1: int = o0 + ("{\"length\":"@).len();
    let o2: int = o1 + (dec_nat(c.length as nat)).len();
    let o3: int = o2 + (",\"cursor_pos\":"@).len();
    let o4: int = o3 + (dec_nat(c.cursor_pos as nat)).len();
    let o5: int = o4 + (",\"sel_start\":"@).len();
    let o6: int = o5 + (dec_nat(c.sel_start as nat)).len();
    let o7: int = o6 + (",\"sel_end\":"@).len();
    let o8: int = o7 + (dec_nat(c.sel_end as nat)).len();
    let o9: int = o8 + (",\"preedit\":"@).len();
    let o10: int = o9 + (ser_string(c.preedit)).len();
    let o11: int = o10 + ("}"@).len();
    assert(s.subrange(o0, o0 + ("{\"length\":"@).len() + (dec_nat(c.length as nat) + (",\"cursor_pos\":"@ + (dec_nat(c.cursor_pos as nat) + (",\"sel_start\":"@ + (dec_nat(c.sel_start as nat) + (",\"sel_end\":"@ + (dec_nat(c.sel_end as nat) + (",\"preedit\":"@ + (ser_string(c.preedit) + ("}"@)))))))))).len()) == ("{\"length\":"@) + (dec_nat(c.length as nat) + (",\"cursor_pos\":"@ + (dec_nat(c.cursor_pos as nat) + (",\"sel_start\":"@ + (dec_nat(c.sel_start as nat) + (",\"sel_end\":"@ + (dec_nat(c.sel_end as nat) + (",\"preedit\":"@ + (ser_string(c.preedit) + ("}"@)))))))))));
    lemma_region_split(s, o0, "{\"length\":"@, dec_nat(c.length as nat) + (",\"cursor_pos\":"@ + (dec_nat(c.cursor_pos as nat) + (",\"sel_start\":"@ + (dec_nat(c.sel_start as nat) + (",\"sel_end\":"@ + (dec_nat(c.sel_end as nat) + (",\"preedit\":"@ + (ser_string(c.preedit) + ("}"@))))))))));
    assert((dec_nat(c.length as nat) + (",\"cursor_pos\":"@ + (dec_nat(c.cursor_pos as nat) + (",\"sel_start\":"@ + (dec_nat(c.sel_start as nat) + (",\"sel_end\":"@ + (dec_nat(c.sel_end as nat) + (",\"preedit\":"@ + (ser_string(c.preedit) + ("}"@)))))))))) =~= (dec_nat(c.length as nat)) + (",\"cursor_pos\":"@ + (dec_nat(c.cursor_pos as nat) + (",\"sel_start\":"@ + (dec_nat(c.sel_start as nat) + (",\"sel_end\":"@ + (dec_nat(c.sel_end as nat) + (",\"preedit\":"@ + (ser_string(c.preedit) + ("}"@))))))))));
    assert(s.subrange(o1, o1 + (dec_nat(c.length as nat)).len() + (",\"cursor_pos\":"@ + (dec_nat(c.cursor_pos as nat) + (",\"sel_start\":"@ + (dec_nat(c.sel_start as nat) + (",\"sel_end\":"@ + (dec_nat(c.sel_end as nat) + (",\"preedit\":"@ + (ser_string(c.preedit) + ("}"@))))))))).len()) == (dec_nat(c.length as nat)) + (",\"cursor_pos\":"@ + (dec_nat(c.cursor_pos as nat) + (",\"sel_start\":"@ + (dec_nat(c.sel_start as nat) + (",\"sel_end\":"@ + (dec_nat(c.sel_end as nat) + (",\"preedit\":"@ + (ser_string(c.preedit) + ("}"@))))))))));
    lemma_region_split(s, o1, dec_nat(c.length as nat), ",\"cursor_pos\":"@ + (dec_nat(c.cursor_pos as nat) + (",\"sel_start\":"@ + (dec_nat(c.sel_start as nat) + (",\"sel_end\":"@ + (dec_nat(c.sel_end as nat) + (",\"preedit\":"@ + (ser_string(c.preedit) + ("}"@)))))))));
    assert((",\"cursor_pos\":"@ + (dec_nat(c.cursor_pos as nat) + (",\"sel_start\":"@ + (dec_nat(c.sel_start as nat) + (",\"sel_end\":"@ + (dec_nat(c.sel_end as nat) + (",\"preedit\":"@ + (ser_string(c.preedit) + ("}"@))))))))) =~= (",\"cursor_pos\":"@) + (dec_nat(c.cursor_pos as nat) + (",\"sel_start\":"@ + (dec_nat(c.sel_start as nat) + (",\"sel_end\":"@ + (dec_nat(c.sel_end as nat) + (",\"preedit\":"@ + (ser_string(c.preedit) + ("}"@)))))))));
    assert(s.subrange(o2, o2 + (",\"cursor_pos\":"@).len() + (dec_nat(c.cursor_pos as nat) + (",\"sel_start\":"@ + (dec_nat(c.sel_start as nat) + (",\"sel_end\":"@ + (dec_nat(c.sel_end as nat) + (",\"preedit\":"@ + (ser_string(c.preedit) + ("}"@)))))))).len()) == (",\"cursor_pos\":"@) + (dec_nat(c.cursor_pos as nat) + (",\"sel_start\":"@ + (dec_nat(c.sel_start as nat) + (",\"sel_end\":"@ + (dec_nat(c.sel_end as nat) + (",\"preedit\":"@ + (ser_string(c.preedit) + ("}"@)))))))));
    lemma_region_split(s, o2, ",\"cursor_pos\":"@, dec_nat(c.cursor_pos as nat) + (",\"sel_start\":"@ + (dec_nat(c.sel_start as nat) + (",\"sel_end\":"@ + (dec_nat(c.sel_end as nat) + (",\"preedit\":"@ + (ser_string(c.preedit) + ("}"@))))))));
    assert((dec_nat(c.cursor_pos as nat) + (",\"sel_start\":"@ + (dec_nat(c.sel_start as nat) + (",\"sel_end\":"@ + (dec_nat(c.sel_end as nat) + (",\"preedit\":"@ + (ser_string(c.preedit) + ("}"@)))))))) =~= (dec_nat(c.cursor_pos as nat)) + (",\"sel_start\":"@ + (dec_nat(c.sel_start as nat) + (",\"sel_end\":"@ + (dec_nat(c.sel_end as nat) + (",\"preedit\":"@ + (ser_string(c.preedit) + ("}"@))))))));
    assert(s.subrange(o3, o3 + (dec_nat(c.cursor_pos as nat)).len() + (",\"sel_start\":"@ + (dec_nat(c.sel_start as nat) + (",\"sel_end\":"@ + (dec_nat(c.sel_end as nat) + (",\"preedit\":"@ + (ser_string(c.preedit) + ("}"@))))))).len()) == (dec_nat(c.cursor_pos as nat)) + (",\"sel_start\":"@ + (dec_nat(c.sel_start as nat) + (",\"sel_end\":"@ + (dec_nat(c.sel_end as nat) + (",\"preedit\":"@ + (ser_string(c.preedit) + ("}"@))))))));
    lemma_region_split(s, o3, dec_nat(c.cursor_pos as nat), ",\"sel_start\":"@ + (dec_nat(c.sel_start as nat) + (",\"sel_end\":"@ + (dec_nat(c.sel_end as nat) + (",\"preedit\":"@ + (ser_string(c.preedit) + ("}"@)))))));
    assert((",\"sel_start\":"@ + (dec_nat(c.sel_start as nat) + (",\"sel_end\":"@ + (dec_nat(c.sel_end as nat) + (",\"preedit\":"@ + (ser_string(c.preedit) + ("}"@))))))) =~= (",\"sel_start\":"@) + (dec_nat(c.sel_start as nat) + (",\"sel_end\":"@ + (dec_nat(c.sel_end as nat) + (",\"preedit\":"@ + (ser_string(c.preedit) + ("}"@)))))));
    assert(s.subrange(o4, o4 + (",\"sel_start\":"@).len() + (dec_nat(c.sel_start as nat) + (",\"sel_end\":"@ + (dec_nat(c.sel_end as nat) + (",\"preedit\":"@ + (ser_string(c.preedit) + ("}"@)))))).len()) == (",\"sel_start\":"@) + (dec_nat(c.sel_start as nat) + (",\"sel_end\":"@ + (dec_nat(c.sel_end as nat) + (",\"preedit\":"@ + (ser_string(c.preedit) + ("}"@)))))));
    lemma_region_split(s, o4, ",\"sel_start\":"@, dec_nat(c.sel_start as nat) + (",\"sel_end\":"@ + (dec_nat(c.sel_end as nat) + (",\"preedit\":"@ + (ser_string(c.preedit) + ("}"@))))));
    assert((dec_nat(c.sel_start as nat) + (",\"sel_end\":"@ + (dec_nat(c.sel_end as nat) + (",\"preedit\":"@ + (ser_string(c.preedit) + ("}"@)))))) =~= (dec_nat(c.sel_start as nat)) + (",\"sel_end\":"@ + (dec_nat(c.sel_end as nat) + (",\"preedit\":"@ + (ser_string(c.preedit) + ("}"@))))));
    assert(s.subrange(o5, o5 + (dec_nat(c.sel_start as nat)).len() + (",\"sel_end\":"@ + (dec_nat(c.sel_end as nat) + (",\"preedit\":"@ + (ser_string(c.preedit) + ("}"@))))).len()) == (dec_nat(c.sel_start as nat)) + (",\"sel_end\":"@ + (dec_nat(c.sel_end as nat) + (",\"preedit\":"@ + (ser_string(c.preedit) + ("}"@))))));
    lemma_region_split(s, o5, dec_nat(c.sel_start as nat), ",\"sel_end\":"@ + (dec_nat(c.sel_end as nat) + (",\"preedit\":"@ + (ser_string(c.preedit) + ("}"@)))));
    assert((",\"sel_end\":"@ + (dec_nat(c.sel_end as nat) + (",\"preedit\":"@ + (ser_string(c.preedit) + ("}"@))))) =~= (",\"sel_end\":"@) + (dec_nat(c.sel_end as nat) + (",\"preedit\":"@ + (ser_string(c.preedit) + ("}"@)))));
    assert(s.subrange(o6, o6 + (",\"sel_end\":"@).len() + (dec_nat(c.sel_end as nat) + (",\"preedit\":"@ + (ser_string(c.preedit) + ("}"@)))).len()) == (",\"sel_end\":"@) + (dec_nat(c.sel_end as nat) + (",\"preedit\":"@ + (ser_string(c.preedit) + ("}"@)))));
    lemma_region_split(s, o6, ",\"sel_end\":"@, dec_nat(c.sel_end as nat) + (",\"preedit\":"@ + (ser_string(c.preedit) + ("}"@))));
    assert((dec_nat(c.sel_end as nat) + (",\"preedit\":"@ + (ser_string(c.preedit) + ("}"@)))) =~= (dec_nat(c.sel_end as nat)) + (",\"preedit\":"@ + (ser_string(c.preedit) + ("}"@))));
    assert(s.subrange(o7, o7 + (dec_nat(c.sel_end as nat)).len() + (",\"preedit\":"@ + (ser_string(c.preedit) + ("}"@))).len()) == (dec_nat(c.sel_end as nat)) + (",\"preedit\":"@ + (ser_string(c.preedit) + ("}"@))));
    lemma_region_split(s, o7, dec_nat(c.sel_end as nat), ",\"preedit\":"@ + (ser_string(c.preedit) + ("}"@)));
    assert((",\"preedit\":"@ + (ser_string(c.preedit) + ("}"@))) =~= (",\"preedit\":"@) + (ser_string(c.preedit) + ("}"@)));
    assert(s.subrange(o8, o8 + (",\"preedit\":"@).len() + (ser_string(c.preedit) + ("}"@)).len()) == (",\"preedit\":"@) + (ser_string(c.preedit) + ("}"@)));
    lemma_region_split(s, o8, ",\"preedit\":"@, ser_string(c.preedit) + ("}"@));
    assert((ser_string(c.preedit) + ("}"@)) =~= (ser_string(c.preedit)) + ("}"@));
    assert(s.subrange(o9, o9 + (ser_string(c.preedit)).len() + ("}"@).len()) == (ser_string(c.preedit)) + ("}"@));
    lemma_region_split(s, o9, ser_string(c.preedit), "}"@);
    assert(s.subrange(o0, o1) == ("{\"length\":"@));
    assert(s.subrange(o1, o2) == (dec_nat(c.length as nat)));
    assert(s.subrange(o2, o3) == (",\"cursor_pos\":"@));
    assert(s.subrange(o3, o4) == (dec_nat(c.cursor_pos as nat)));
    assert(s.subrange(o4, o5) == (",\"sel_start\":"@));
    assert(s.subrange(o5, o6) == (dec_nat(c.sel_start as nat)));
    assert(s.subrange(o6, o7) == (",\"sel_end\":"@));
    assert(s.subrange(o7, o8) == (dec_nat(c.sel_end as nat)));
    assert(s.subrange(o8, o9) == (",\"preedit\":"@));
    assert(s.subrange(o9, o10) == (ser_string(c.preedit)));
    assert(s.subrange(o10, o11) == ("}"@));
    reveal_strlit("{\"length\":");
    reveal_strlit("\"length\"");
    assert("{\"length\":"@ =~= seq!['{'] + "\"length\""@ + seq![':']);
    assert(s.subrange(o0, o0 + "\"length\""@.len() + 2) == seq!['{'] + "\"length\""@ + seq![':']);
    lemma_p_obj_first_key(s, o0, "\"length\""@);
    assert(p_obj_first_key(s, o0, "\"length\""@) == PRes::<()>::Parsed((), o1));
    reveal_strlit(",\"cursor_pos\":");
    assert(s.subrange(o2, o3)[0] == ",\"cursor_pos\":"@[0]);
    assert(!is_digit(s[o2]));
    lemma_p_dec_ser(s, o1, c.length as nat, usize::MAX as int);
    assert(p_dec(s, o1, usize::MAX as int) == PRes::Parsed((c.length as nat) as int, o2));
    reveal_strlit(",\"cursor_pos\":");
    reveal_strlit("\"cursor_pos\"");
    assert(",\"cursor_pos\":"@ =~= seq![','] + "\"cursor_pos\""@ + seq![':']);
    assert(s.subrange(o2, o2 + "\"cursor_pos\""@.len() + 2) == seq![','] + "\"cursor_pos\""@ + seq![':']);
    lemma_p_next_key(s, o2, "\"cursor_pos\""@);
    assert(p_next_key(s, o2, "\"cursor_pos\""@) == PRes::<()>::Parsed((), o3));
    reveal_strlit(",\"sel_start\":");
    assert(s.subrange(o4, o5)[0] == ",\"sel_start\":"@[0]);
    assert(!is_digit(s[o4]));
    lemma_p_dec_ser(s, o3, c.cursor_pos as nat, usize::MAX as int);
    assert(p_dec(s, o3, usize::MAX as int) == PRes::Parsed((c.cursor_pos as nat) as int, o4));
    reveal_strlit(",\"sel_start\":");
    reveal_strlit("\"sel_start\"");
    assert(",\"sel_start\":"@ =~= seq![','] + "\"sel_start\""@ + seq![':']);
    assert(s.subrange(o4, o4 + "\"sel_start\""@.len() + 2) == seq![','] + "\"sel_start\""@ + seq![':']);
    lemma_p_next_key(s, o4, "\"sel_start\""@);
    assert(p_next_key(s, o4, "\"sel_start\""@) == PRes::<()>::Parsed((), o5));
    reveal_strlit(",\"sel_end\":");
    assert(s.subrange(o6, o7)[0] == ",\"sel_end\":"@[0]);
    assert(!is_digit(s[o6]));
    lemma_p_dec_ser(s, o5, c.sel_start as nat, usize::MAX as int);
    assert(p_dec(s, o5, usize::MAX as int) == PRes::Parsed((c.sel_start as nat) as int, o6));
    reveal_strlit(",\"sel_end\":");
    reveal_strlit("\"sel_end\"");
    assert(",\"sel_end\":"@ =~= seq![','] + "\"sel_end\""@ + seq![':']);
    assert(s.subrange(o6, o6 + "\"sel_end\""@.len() + 2) == seq![','] + "\"sel_end\""@ + seq![':']);
    lemma_p_next_key(s, o6, "\"sel_end\""@);
    assert(p_next_key(s, o6, "\"sel_end\""@) == PRes::<()>::Parsed((), o7));
    reveal_strlit(",\"preedit\":");
    assert(s.subrange(o8, o9)[0] == ",\"preedit\":"@[0]);
    assert(!is_digit(s[o8]));
    lemma_p_dec_ser(s, o7, c.sel_end as nat, usize::MAX as int);
    assert(p_dec(s, o7, usize::MAX as int) == PRes::Parsed((c.sel_end as nat) as int, o8));
    reveal_strlit(",\"preedit\":");
    reveal_strlit("\"preedit\"");
    assert(",\"preedit\":"@ =~= seq![','] + "\"preedit\""@ + seq![':']);
    assert(s.subrange(o8, o8 + "\"preedit\""@.len() + 2) == seq![','] + "\"preedit\""@ + seq![':']);
    lemma_p_next_key(s, o8, "\"preedit\""@);
    assert(p_next_key(s, o8, "\"preedit\""@) == PRes::<()>::Parsed((), o9));
    lemma_p_string_ser(s, o9, c.preedit);
    assert(p_string(s, o9) == PRes::Parsed(c.preedit, o10));
    reveal_strlit("}");
    assert(s.subrange(o10, o11)[0] == "}"@[0]);
    assert(s[o10] == "}"@[0]);
    lemma_p_obj_end(s, o10);
    assert(p_obj_end(s, o10) == PRes::<()>::Parsed((), o10 + 1));
    assert(p_composition(s, i) == PRes::Parsed(
        RimeCompositionV {
            length: (c.length as nat as int) as usize,
            cursor_pos: (c.cursor_pos as nat as int) as usize,
            sel_start: (c.sel_start as nat as int) as usize,
            sel_end: (c.sel_end as nat as int) as usize,
            preedit: c.preedit,
        },
        o11,
    ));
    assert(p_composition(s, i) == PRes::Parsed(c, i + w.len()));
}



/// A text of plain chars serializes inside a string as itself.
pub proof fn lemma_ser_str_body_plain(t: Seq<char>)
    requires
        forall|k: int| 0 <= k < t.len() ==> (#[trigger] t[k]) != '"' && t[k] != '\\' && (t[k]
            as u32) >= 0x20,
    ensures
        ser_str_body(t) == t,
    decreases t.len(),
{
    if t.len() == 0 {
        assert(ser_str_body(t) =~= t);
    } else {
        assert(t[0] != '"' && t[0] != '\\' && (t[0] as u32) >= 0x20);
        assert(esc_char(t[0]) == seq![t[0]]);
        assert(forall|k: int| 0 <= k < t.drop_first().len() ==> #[trigger] t.drop_first()[k]
            == t[k + 1]);
        lemma_ser_str_body_plain(t.drop_first());
        assert(ser_str_body(t) == seq![t[0]] + t.drop_first());
        assert(seq![t[0]] + t.drop_first() =~= t);
    }
}

/// A literal fails to match where one of its chars differs.
pub proof fn lemma_p_lit_mismatch(s: Seq<char>, i: int, lit: Seq<char>, m: int)
    requires
        0 <= i,
        0 <= m < lit.len(),
        i + m < s.len(),
        forall|j: int| 0 <= j < m ==> s[i + j] == lit[j],
        s[i + m] != lit[m],
    ensures
        p_lit(s, i, lit) is Fail,
    decreases m,
{
    if m == 0 {
        assert(s[i] != lit[0]);
    } else {
        assert(s[i] == lit[0]) by {
            assert(s[i + 0] == lit[0]);
        }
        assert forall|j: int| 0 <= j < m - 1 implies s[i + 1 + j] == lit.drop_first()[j] by {
            assert(s[i + (1 + j)] == lit[1 + j]);
            assert(lit.drop_first()[j] == lit[1 + j]);
            assert(i + 1 + j == i + (1 + j));
        }
        assert(s[i + 1 + (m - 1)] != lit.drop_first()[m - 1]) by {
            assert(lit.drop_first()[m - 1] == lit[m]);
        }
        lemma_p_lit_mismatch(s, i + 1, lit.drop_first(), m - 1);
    }
}

/// A serialized string parses as the `Some` arm of a nullable string.
pub proof fn lemma_p_null_or_string_some(s: Seq<char>, i: int, t: Seq<char>)
    requires
        0 <= i,
        i + ser_string(t).len() <= s.len(),
        s.subrange(i, i + ser_string(t).len()) == ser_string(t),
    ensures
        p_null_or_string(s, i) == PRes::Parsed(Some(t), i + ser_string(t).len()),
{
    let tok = ser_string(t);
    let body = ser_str_body(t);
    assert(s[i] == tok[0]);
    assert(s[i] == '"');
    lemma_skip_ws_still(s, i);
    assert(s.subrange(i + 1, i + 1 + (body.len() + 1)) =~= body + seq!['"']) by {
        assert forall|k: int| 0 <= k < body.len() + 1 implies s.subrange(
            i + 1,
            i + 1 + (body.len() + 1),
        )[k] == (body + seq!['"'])[k] by {
            assert(s.subrange(i, i + tok.len())[k + 1] == tok[k + 1]);
            assert(tok =~= seq!['"'] + (body + seq!['"']));
        }
    }
    lemma_p_str_body_ser(s, i + 1, t);
}

/// `null` parses as the `None` arm of a nullable string.
pub proof fn lemma_p_null_or_string_none(s: Seq<char>, i: int)
    requires
        0 <= i,
        i + 4 <= s.len(),
        s.subrange(i, i + 4) == "null"@,
    ensures
        p_null_or_string(s, i) == PRes::Parsed(None::<Seq<char>>, i + 4),
{
    reveal_strlit("null");
    assert(s[i] == "null"@[0]);
    assert(s[i] == 'n');
    lemma_skip_ws_still(s, i);
    lemma_p_lit(s, i, "null"@);
}

/// `true` or `false` parses back to its value.
pub proof fn lemma_p_bool_ser(s: Seq<char>, i: int, b: bool)
    requires
        0 <= i,
        i + ser_bool(b).len() <= s.len(),
        s.subrange(i, i + ser_bool(b).len()) == ser_bool(b),
    ensures
        p_bool(s, i) == PRes::Parsed(b, i + ser_bool(b).len()),
{
    if b {
        reveal_strlit("true");
        assert(s[i] == "true"@[0]);
        assert(s[i] == 't');
        lemma_skip_ws_still(s, i);
        lemma_p_lit(s, i, "true"@);
    } else {
        reveal_strlit("false");
        assert(s[i] == "false"@[0]);
        assert(s[i] == 'f');
        lemma_skip_ws_still(s, i);
        lemma_p_lit(s, i, "false"@);
    }
}

/// A serialized signed decimal, followed by a non-digit or the end, parses
/// back to its value.
pub proof fn lemma_p_i64_ser(s: Seq<char>, i: int, v: i64)
    requires
        0 <= i,
        i + ser_i64(v).len() <= s.len(),
        s.subrange(i, i + ser_i64(v).len()) == ser_i64(v),
        i + ser_i64(v).len() == s.len() || !is_digit(s[i + ser_i64(v).len()]),
    ensures
        p_i64(s, i) == PRes::Parsed(v, i + ser_i64(v).len()),
{
    let w = ser_i64(v);
    if v < 0 {
        let m = (-(v as int)) as nat;
        let d = dec_nat(m);
        assert(w == seq!['-'] + d);
        assert(s[i] == w[0]);
        assert(s[i] == '-');
        lemma_skip_ws_still(s, i);
        assert(s.subrange(i + 1, i + 1 + d.len()) =~= d) by {
            assert forall|k: int| 0 <= k < d.len() implies s.subrange(i + 1, i + 1 + d.len())[k]
                == d[k] by {
                assert(s.subrange(i, i + w.len())[k + 1] == w[k + 1]);
            }
        }
        assert(m <= 0x8000_0000_0000_0000);
        lemma_p_dec_ser(s, i + 1, m, 0x8000_0000_0000_0000);
        assert(p_dec(s, i + 1, 0x8000_0000_0000_0000) == PRes::Parsed(m as int, i + 1 + d.len()));
        assert((-(m as int)) as i64 == v);
    } else {
        let d = dec_nat(v as nat);
        lemma_dec_nat_digits(v as nat);
        assert(s[i] == d[0]);
        assert(is_digit(s[i]));
        assert(!is_ws(s[i]) && s[i] != '-');
        lemma_skip_ws_still(s, i);
        lemma_p_dec_ser(s, i, v as nat, 0x7fff_ffff_ffff_ffff);
    }
}

/// A serialized candidate parses back to its value.
#[verifier::rlimit(100)]
#[verifier::spinoff_prover]
pub proof fn lemma_p_candidate_ser(s: Seq<char>, i: int, c: RimeCandidateV)
    requires
        0 <= i,
        i + ser_candidate(c).len() <= s.len(),
        s.subrange(i, i + ser_candidate(c).len()) == ser_candidate(c),
    ensures
        p_candidate(s, i) == PRes::Parsed(c, i + ser_candidate(c).len()),
{
    let w = ser_candidate(c);
    let o0: int = i;
    assert(w =~= "{\"text\":"@ + (ser_string(c.text) + (",\"comment\":"@ + ((match c.comment {
        Some(t) => ser_string(t),
        None => "null"@,
    }) + ("}"@)))));
    assert(s.subrange(o0, o0 + (w).len()) == w);
    let o1: int = o0 + ("{\"text\":"@).len();
    let o2: int = o1 + (ser_string(c.text)).len();
    let o3: int = o2 + (",\"comment\":"@).len();
    let o4: int = o3 + ((match c.comment {
        Some(t) => ser_string(t),
        None => "null"@,
    })).len();
    let o5: int = o4 + ("}"@).len();
    assert(s.subrange(o0, o0 + ("{\"text\":"@).len() + (ser_string(c.text) + (",\"comment\":"@ + ((match c.comment {
        Some(t) => ser_string(t),
        None => "null"@,
    }) + ("}"@)))).len()) == ("{\"text\":"@) + (ser_string(c.text) + (",\"comment\":"@ + ((match c.comment {
        Some(t) => ser_string(t),
        None => "null"@,
    }) + ("}"@)))));
    lemma_region_split(s, o0, "{\"text\":"@, ser_string(c.text) + (",\"comment\":"@ + ((match c.comment {
        Some(t) => ser_string(t),
        None => "null"@,
    }) + ("}"@))));
    assert((ser_string(c.text) + (",\"comment\":"@ + ((match c.comment {
        Some(t) => ser_string(t),
        None => "null"@,
    }) + ("}"@)))) =~= (ser_string(c.text)) + (",\"comment\":"@ + ((match c.comment {
        Some(t) => ser_string(t),
        None => "null"@,
    }) + ("}"@))));
    assert(s.subrange(o1, o1 + (ser_string(c.text)).len() + (",\"comment\":"@ + ((match c.comment {
        Some(t) => ser_string(t),
        None => "null"@,
    }) + ("}"@))).len()) == (ser_string(c.text)) + (",\"comment\":"@ + ((match c.comment {
        Some(t) => ser_string(t),
        None => "null"@,
    }) + ("}"@))));
    lemma_region_split(s, o1, ser_string(c.text), ",\"comment\":"@ + ((match c.comment {
        Some(t) => ser_string(t),
        None => "null"@,
    }) + ("}"@)));
    assert((",\"comment\":"@ + ((match c.comment {
        Some(t) => ser_string(t),
        None => "null"@,
    }) + ("}"@))) =~= (",\"comment\":"@) + ((match c.comment {
        Some(t) => ser_string(t),
        None => "null"@,
    }) + ("}"@)));
    assert(s.subrange(o2, o2 + (",\"comment\":"@).len() + ((match c.comment {
        Some(t) => ser_string(t),
        None => "null"@,
    }) + ("}"@)).len()) == (",\"comment\":"@) + ((match c.comment {
        Some(t) => ser_string(t),
        None => "null"@,
    }) + ("}"@)));
    lemma_region_split(s, o2, ",\"comment\":"@, (match c.comment {
        Some(t) => ser_string(t),
        None => "null"@,
    }) + ("}"@));
    assert(((match c.comment {
        Some(t) => ser_string(t),
        None => "null"@,
    }) + ("}"@)) =~= ((match c.comment {
        Some(t) => ser_string(t),
        None => "null"@,
    })) + ("}"@));
    assert(s.subrange(o3, o3 + ((match c.comment {
        Some(t) => ser_string(t),
        None => "null"@,
    })).len() + ("}"@).len()) == ((match c.comment {
        Some(t) => ser_string(t),
        None => "null"@,
    })) + ("}"@));
    lemma_region_split(s, o3, (match c.comment {
        Some(t) => ser_string(t),
        None => "null"@,
    }), "}"@);
    assert(s.subrange(o0, o1) == ("{\"text\":"@));
    assert(s.subrange(o1, o2) == (ser_string(c.text)));
    assert(s.subrange(o2, o3) == (",\"comment\":"@));
    assert(s.subrange(o3, o4) == ((match c.comment {
        Some(t) => ser_string(t),
        None => "null"@,
    })));
    assert(s.subrange(o4, o5) == ("}"@));
    reveal_strlit("{\"text\":");
    reveal_strlit("\"text\"");
    assert("{\"text\":"@ =~= seq!['{'] + "\"text\""@ + seq![':']);
    assert(s.subrange(o0, o0 + "\"text\""@.len() + 2) == seq!['{'] + "\"text\""@ + seq![':']);
    lemma_p_obj_first_key(s, o0, "\"text\""@);
    assert(p_obj_first_key(s, o0, "\"text\""@) == PRes::<()>::Parsed((), o1));
    lemma_p_string_ser(s, o1, c.text);
    reveal_strlit(",\"comment\":");
    reveal_strlit("\"comment\"");
    assert(",\"comment\":"@ =~= seq![','] + "\"comment\""@ + seq![':']);
    assert(s.subrange(o2, o2 + "\"comment\""@.len() + 2) == seq![','] + "\"comment\""@ + seq![':']);
    lemma_p_next_key(s, o2, "\"comment\""@);
    assert(p_next_key(s, o2, "\"comment\""@) == PRes::<()>::Parsed((), o3));
    match c.comment {
        Some(t) => {
            lemma_p_null_or_string_some(s, o3, t);
        },
        None => {
            reveal_strlit("null");
            assert(("null"@).len() == 4);
            assert(s.subrange(o3, o3 + 4) == "null"@);
            lemma_p_null_or_string_none(s, o3);
        },
    }
    reveal_strlit("}");
    assert(s.subrange(o4, o5)[0] == "}"@[0]);
    assert(s[o4] == "}"@[0]);
    lemma_p_obj_end(s, o4);
    assert(p_candidate(s, i) == PRes::Parsed(RimeCandidateV { text: c.text, comment: c.comment }, o5));
    assert(p_candidate(s, i) == PRes::Parsed(c, i + w.len()));
}


/// A serialized non-empty candidate list, followed by `]`, parses back to
/// its members.
#[verifier::rlimit(100)]
#[verifier::spinoff_prover]
pub proof fn lemma_p_cand_list_ser(s: Seq<char>, i: int, cs: Seq<RimeCandidateV>)
    requires
        0 <= i,
        cs.len() >= 1,
        i + ser_candidates(cs).len() + 1 <= s.len(),
        s.subrange(i, i + ser_candidates(cs).len() + 1) == ser_candidates(cs) + seq![']'],
    ensures
        p_cand_list(s, i) == PRes::Parsed(cs, i + ser_candidates(cs).len() + 1),
    decreases cs.len(),
{
    let w = ser_candidates(cs);
    let c0 = ser_candidate(cs[0]);
    reveal_strlit("{\"text\":");
    assert(("{\"text\":"@).len() == 8);
    assert(c0.len() >= 8);
    if cs.len() == 1 {
        assert(w == c0);
        lemma_region_split(s, i, c0, seq![']']);
        lemma_p_candidate_ser(s, i, cs[0]);
        let j = i + c0.len() as int;
        assert(j > i);
        assert(s.subrange(j, j + 1)[0] == ']');
        assert(s[j] == ']');
        lemma_skip_ws_still(s, j);
        assert(p_cand_list(s, i) == PRes::Parsed(seq![cs[0]], j + 1));
        assert(seq![cs[0]] =~= cs);
    } else {
        let rest = ser_candidates(cs.drop_first());
        assert(w == c0 + seq![','] + rest);
        assert(s.subrange(i, i + c0.len() + (1 + rest.len() + 1)) == c0 + (seq![','] + (rest
            + seq![']'])))
            by {
            assert(w + seq![']'] =~= c0 + (seq![','] + (rest + seq![']'])));
        }
        lemma_region_split(s, i, c0, seq![','] + (rest + seq![']']));
        lemma_p_candidate_ser(s, i, cs[0]);
        let j = i + c0.len() as int;
        assert(j > i);
        assert(s.subrange(j, j + 1 + rest.len() + 1) == seq![','] + (rest + seq![']']));
        lemma_region_split(s, j, seq![','], rest + seq![']']);
        assert(s.subrange(j, j + 1)[0] == ',');
        assert(s[j] == ',');
        lemma_skip_ws_still(s, j);
        assert(s.subrange(j + 1, j + 1 + rest.len() + 1) == rest + seq![']']);
        lemma_p_cand_list_ser(s, j + 1, cs.drop_first());
        assert(p_cand_list(s, j + 1) == PRes::Parsed(cs.drop_first(), j + 1 + rest.len() + 1));
        assert(p_cand_list(s, i) == PRes::Parsed(seq![cs[0]] + cs.drop_first(), i + w.len() + 1));
        assert(seq![cs[0]] + cs.drop_first() =~= cs);
    }
}

/// A serialized menu parses back to its value.
#[verifier::rlimit(100)]
#[verifier::spinoff_prover]
pub proof fn lemma_p_menu_ser(s: Seq<char>, i: int, m: RimeMenuV)
    requires
        0 <= i,
        i + ser_menu(m).len() <= s.len(),
        s.subrange(i, i + ser_menu(m).len()) == ser_menu(m),
    ensures
        p_menu(s, i) == PRes::Parsed(m, i + ser_menu(m).len()),
{
    let w = ser_menu(m);
    let o0: int = i;
    assert(w =~= "{\"candidates\":["@ + (ser_candidates(m.candidates) + ("],\"page_no\":"@ + (dec_nat(m.page_no as nat) + (",\"highlighted_candidate_index\":"@ + (dec_nat(m.highlighted_candidate_index as nat) + (",\"is_last_page\":"@ + (ser_bool(m.is_last_page) + ("}"@)))))))));
    assert(s.subrange(o0, o0 + (w).len()) == w);
    let o1: int = o0 + ("{\"candidates\":["@).len();
    let o2: int = o1 + (ser_candidates(m.candidates)).len();
    let o3: int = o2 + ("],\"page_no\":"@).len();
    let o4: int = o3 + (dec_nat(m.page_no as nat)).len();
    let o5: int = o4 + (",\"highlighted_candidate_index\":"@).len();
    let o6: int = o5 + (dec_nat(m.highlighted_candidate_index as nat)).len();
    let o7: int = o6 + (",\"is_last_page\":"@).len();
    let o8: int = o7 + (ser_bool(m.is_last_page)).len();
    let o9: int = o8 + ("}"@).len();
    assert(s.subrange(o0, o0 + ("{\"candidates\":["@).len() + (ser_candidates(m.candidates) + ("],\"page_no\":"@ + (dec_nat(m.page_no as nat) + (",\"highlighted_candidate_index\":"@ + (dec_nat(m.highlighted_candidate_index as nat) + (",\"is_last_page\":"@ + (ser_bool(m.is_last_page) + ("}"@)))))))).len()) == ("{\"candidates\":["@) + (ser_candidates(m.candidates) + ("],\"page_no\":"@ + (dec_nat(m.page_no as nat) + (",\"highlighted_candidate_index\":"@ + (dec_nat(m.highlighted_candidate_index as nat) + (",\"is_last_page\":"@ + (ser_bool(m.is_last_page) + ("}"@)))))))));
    lemma_region_split(s, o0, "{\"candidates\":["@, ser_candidates(m.candidates) + ("],\"page_no\":"@ + (dec_nat(m.page_no as nat) + (",\"highlighted_candidate_index\":"@ + (dec_nat(m.highlighted_candidate_index as nat) + (",\"is_last_page\":"@ + (ser_bool(m.is_last_page) + ("}"@))))))));
    assert((ser_candidates(m.candidates) + ("],\"page_no\":"@ + (dec_nat(m.page_no as nat) + (",\"highlighted_candidate_index\":"@ + (dec_nat(m.highlighted_candidate_index as nat) + (",\"is_last_page\":"@ + (ser_bool(m.is_last_page) + ("}"@)))))))) =~= (ser_candidates(m.candidates)) + ("],\"page_no\":"@ + (dec_nat(m.page_no as nat) + (",\"highlighted_candidate_index\":"@ + (dec_nat(m.highlighted_candidate_index as nat) + (",\"is_last_page\":"@ + (ser_bool(m.is_last_page) + ("}"@))))))));
    assert(s.subrange(o1, o1 + (ser_candidates(m.candidates)).len() + ("],\"page_no\":"@ + (dec_nat(m.page_no as nat) + (",\"highlighted_candidate_index\":"@ + (dec_nat(m.highlighted_candidate_index as nat) + (",\"is_last_page\":"@ + (ser_bool(m.is_last_page) + ("}"@))))))).len()) == (ser_candidates(m.candidates)) + ("],\"page_no\":"@ + (dec_nat(m.page_no as nat) + (",\"highlighted_candidate_index\":"@ + (dec_nat(m.highlighted_candidate_index as nat) + (",\"is_last_page\":"@ + (ser_bool(m.is_last_page) + ("}"@))))))));
    lemma_region_split(s, o1, ser_candidates(m.candidates), "],\"page_no\":"@ + (dec_nat(m.page_no as nat) + (",\"highlighted_candidate_index\":"@ + (dec_nat(m.highlighted_candidate_index as nat) + (",\"is_last_page\":"@ + (ser_bool(m.is_last_page) + ("}"@)))))));
    assert(("],\"page_no\":"@ + (dec_nat(m.page_no as nat) + (",\"highlighted_candidate_index\":"@ + (dec_nat(m.highlighted_candidate_index as nat) + (",\"is_last_page\":"@ + (ser_bool(m.is_last_page) + ("}"@))))))) =~= ("],\"page_no\":"@) + (dec_nat(m.page_no as nat) + (",\"highlighted_candidate_index\":"@ + (dec_nat(m.highlighted_candidate_index as nat) + (",\"is_last_page\":"@ + (ser_bool(m.is_last_page) + ("}"@)))))));
    assert(s.subrange(o2, o2 + ("],\"page_no\":"@).len() + (dec_nat(m.page_no as nat) + (",\"highlighted_candidate_index\":"@ + (dec_nat(m.highlighted_candidate_index as nat) + (",\"is_last_page\":"@ + (ser_bool(m.is_last_page) + ("}"@)))))).len()) == ("],\"page_no\":"@) + (dec_nat(m.page_no as nat) + (",\"highlighted_candidate_index\":"@ + (dec_nat(m.highlighted_candidate_index as nat) + (",\"is_last_page\":"@ + (ser_bool(m.is_last_page) + ("}"@)))))));
    lemma_region_split(s, o2, "],\"page_no\":"@, dec_nat(m.page_no as nat) + (",\"highlighted_candidate_index\":"@ + (dec_nat(m.highlighted_candidate_index as nat) + (",\"is_last_page\":"@ + (ser_bool(m.is_last_page) + ("}"@))))));
    assert((dec_nat(m.page_no as nat) + (",\"highlighted_candidate_index\":"@ + (dec_nat(m.highlighted_candidate_index as nat) + (",\"is_last_page\":"@ + (ser_bool(m.is_last_page) + ("}"@)))))) =~= (dec_nat(m.page_no as nat)) + (",\"highlighted_candidate_index\":"@ + (dec_nat(m.highlighted_candidate_index as nat) + (",\"is_last_page\":"@ + (ser_bool(m.is_last_page) + ("}"@))))));
    assert(s.subrange(o3, o3 + (dec_nat(m.page_no as nat)).len() + (",\"highlighted_candidate_index\":"@ + (dec_nat(m.highlighted_candidate_index as nat) + (",\"is_last_page\":"@ + (ser_bool(m.is_last_page) + ("}"@))))).len()) == (dec_nat(m.page_no as nat)) + (",\"highlighted_candidate_index\":"@ + (dec_nat(m.highlighted_candidate_index as nat) + (",\"is_last_page\":"@ + (ser_bool(m.is_last_page) + ("}"@))))));
    lemma_region_split(s, o3, dec_nat(m.page_no as nat), ",\"highlighted_candidate_index\":"@ + (dec_nat(m.highlighted_candidate_index as nat) + (",\"is_last_page\":"@ + (ser_bool(m.is_last_page) + ("}"@)))));
    assert((",\"highlighted_candidate_index\":"@ + (dec_nat(m.highlighted_candidate_index as nat) + (",\"is_last_page\":"@ + (ser_bool(m.is_last_page) + ("}"@))))) =~= (",\"highlighted_candidate_index\":"@) + (dec_nat(m.highlighted_candidate_index as nat) + (",\"is_last_page\":"@ + (ser_bool(m.is_last_page) + ("}"@)))));
    assert(s.subrange(o4, o4 + (",\"highlighted_candidate_index\":"@).len() + (dec_nat(m.highlighted_candidate_index as nat) + (",\"is_last_page\":"@ + (ser_bool(m.is_last_page) + ("}"@)))).len()) == (",\"highlighted_candidate_index\":"@) + (dec_nat(m.highlighted_candidate_index as nat) + (",\"is_last_page\":"@ + (ser_bool(m.is_last_page) + ("}"@)))));
    lemma_region_split(s, o4, ",\"highlighted_candidate_index\":"@, dec_nat(m.highlighted_candidate_index as nat) + (",\"is_last_page\":"@ + (ser_bool(m.is_last_page) + ("}"@))));
    assert((dec_nat(m.highlighted_candidate_index as nat) + (",\"is_last_page\":"@ + (ser_bool(m.is_last_page) + ("}"@)))) =~= (dec_nat(m.highlighted_candidate_index as nat)) + (",\"is_last_page\":"@ + (ser_bool(m.is_last_page) + ("}"@))));
    assert(s.subrange(o5, o5 + (dec_nat(m.highlighted_candidate_index as nat)).len() + (",\"is_last_page\":"@ + (ser_bool(m.is_last_page) + ("}"@))).len()) == (dec_nat(m.highlighted_candidate_index as nat)) + (",\"is_last_page\":"@ + (ser_bool(m.is_last_page) + ("}"@))));
    lemma_region_split(s, o5, dec_nat(m.highlighted_candidate_index as nat), ",\"is_last_page\":"@ + (ser_bool(m.is_last_page) + ("}"@)));
    assert((",\"is_last_page\":"@ + (ser_bool(m.is_last_page) + ("}"@))) =~= (",\"is_last_page\":"@) + (ser_bool(m.is_last_page) + ("}"@)));
    assert(s.subrange(o6, o6 + (",\"is_last_page\":"@).len() + (ser_bool(m.is_last_page) + ("}"@)).len()) == (",\"is_last_page\":"@) + (ser_bool(m.is_last_page) + ("}"@)));
    lemma_region_split(s, o6, ",\"is_last_page\":"@, ser_bool(m.is_last_page) + ("}"@));
    assert((ser_bool(m.is_last_page) + ("}"@)) =~= (ser_bool(m.is_last_page)) + ("}"@));
    assert(s.subrange(o7, o7 + (ser_bool(m.is_last_page)).len() + ("}"@).len()) == (ser_bool(m.is_last_page)) + ("}"@));
    lemma_region_split(s, o7, ser_bool(m.is_last_page), "}"@);
    assert(s.subrange(o0, o1) == ("{\"candidates\":["@));
    assert(s.subrange(o1, o2) == (ser_candidates(m.candidates)));
    assert(s.subrange(o2, o3) == ("],\"page_no\":"@));
    assert(s.subrange(o3, o4) == (dec_nat(m.page_no as nat)));
    assert(s.subrange(o4, o5) == (",\"highlighted_candidate_index\":"@));
    assert(s.subrange(o5, o6) == (dec_nat(m.highlighted_candidate_index as nat)));
    assert(s.subrange(o6, o7) == (",\"is_last_page\":"@));
    assert(s.subrange(o7, o8) == (ser_bool(m.is_last_page)));
    assert(s.subrange(o8, o9) == ("}"@));
    reveal_strlit("{\"candidates\":[");
    reveal_strlit("\"candidates\"");
    assert("{\"candidates\":["@ =~= (seq!['{'] + "\"candidates\""@ + seq![':']) + seq!['[']);
    assert(s.subrange(o0, o1) == (seq!['{'] + "\"candidates\""@ + seq![':']) + seq!['[']);
    lemma_region_split(s, o0, seq!['{'] + "\"candidates\""@ + seq![':'], seq!['[']);
    assert(s.subrange(o0, o0 + "\"candidates\""@.len() + 2) == seq!['{'] + "\"candidates\""@ + seq![':']);
    lemma_p_obj_first_key(s, o0, "\"candidates\""@);
    let oa: int = o0 + "\"candidates\""@.len() + 2;
    assert(s.subrange(oa, oa + 1)[0] == '[');
    assert(s[oa] == '[');
    lemma_skip_ws_still(s, oa);
    assert(oa + 1 == o1);
    reveal_strlit("],\"page_no\":");
    assert(s.subrange(o2, o3)[0] == "],\"page_no\":"@[0]);
    assert(s[o2] == ']');
    if m.candidates.len() == 0 {
        assert(ser_candidates(m.candidates).len() == 0);
        assert(o1 == o2);
        lemma_skip_ws_still(s, o1);
        assert(p_cand_array(s, oa) == PRes::Parsed(Seq::<RimeCandidateV>::empty(), o2 + 1));
        assert(m.candidates =~= Seq::<RimeCandidateV>::empty());
    } else {
        reveal_strlit("{\"text\":");
        let c0 = ser_candidate(m.candidates[0]);
        assert(c0 =~= "{\"text\":"@ + (ser_string(m.candidates[0].text) + (",\"comment\":"@ + ((match m.candidates[0].comment { Some(t) => ser_string(t), None => "null"@ }) + "}"@))));
        assert(c0[0] == "{\"text\":"@[0]);
        assert(ser_candidates(m.candidates)[0] == c0[0]);
        assert(s.subrange(o1, o2)[0] == ser_candidates(m.candidates)[0]);
        assert(s[o1] == '{');
        lemma_skip_ws_still(s, o1);
        assert(s.subrange(o1, o2 + 1) =~= ser_candidates(m.candidates) + seq![']']) by {
            assert forall|k: int| 0 <= k < (o2 + 1 - o1) implies s.subrange(o1, o2 + 1)[k] == (ser_candidates(m.candidates) + seq![']'])[k] by {
                if k < o2 - o1 {
                    assert(s.subrange(o1, o2)[k] == ser_candidates(m.candidates)[k]);
                } else {
                    assert(s[o2] == ']');
                }
            }
        }
        lemma_p_cand_list_ser(s, o1, m.candidates);
        assert(p_cand_array(s, oa) == PRes::Parsed(m.candidates, o2 + 1));
    }
    reveal_strlit(",\"page_no\":");
    reveal_strlit("\"page_no\"");
    assert(s.subrange(o2 + 1, o3) =~= seq![','] + "\"page_no\""@ + seq![':']) by {
        assert forall|k: int| 0 <= k < o3 - o2 - 1 implies s.subrange(o2 + 1, o3)[k] == (seq![','] + "\"page_no\""@ + seq![':'])[k] by {
            assert(s.subrange(o2, o3)[k + 1] == "],\"page_no\":"@[k + 1]);
        }
    }
    assert(s.subrange(o2 + 1, o2 + 1 + "\"page_no\""@.len() + 2) == seq![','] + "\"page_no\""@ + seq![':']);
    lemma_p_next_key(s, o2 + 1, "\"page_no\""@);
    assert(p_next_key(s, o2 + 1, "\"page_no\""@) == PRes::<()>::Parsed((), o3));
    reveal_strlit(",\"highlighted_candidate_index\":");
    assert(s.subrange(o4, o5)[0] == ",\"highlighted_candidate_index\":"@[0]);
    assert(!is_digit(s[o4]));
    lemma_p_dec_ser(s, o3, m.page_no as nat, usize::MAX as int);
    reveal_strlit(",\"highlighted_candidate_index\":");
    reveal_strlit("\"highlighted_candidate_index\"");
    assert(",\"highlighted_candidate_index\":"@ =~= seq![','] + "\"highlighted_candidate_index\""@ + seq![':']);
    assert(s.subrange(o4, o4 + "\"highlighted_candidate_index\""@.len() + 2) == seq![','] + "\"highlighted_candidate_index\""@ + seq![':']);
    lemma_p_next_key(s, o4, "\"highlighted_candidate_index\""@);
    assert(p_next_key(s, o4, "\"highlighted_candidate_index\""@) == PRes::<()>::Parsed((), o5));
    reveal_strlit(",\"is_last_page\":");
    assert(s.subrange(o6, o7)[0] == ",\"is_last_page\":"@[0]);
    assert(!is_digit(s[o6]));
    lemma_p_dec_ser(s, o5, m.highlighted_candidate_index as nat, usize::MAX as int);
    reveal_strlit(",\"is_last_page\":");
    reveal_strlit("\"is_last_page\"");
    assert(",\"is_last_page\":"@ =~= seq![','] + "\"is_last_page\""@ + seq![':']);
    assert(s.subrange(o6, o6 + "\"is_last_page\""@.len() + 2) == seq![','] + "\"is_last_page\""@ + seq![':']);
    lemma_p_next_key(s, o6, "\"is_last_page\""@);
    assert(p_next_key(s, o6, "\"is_last_page\""@) == PRes::<()>::Parsed((), o7));
    lemma_p_bool_ser(s, o7, m.is_last_page);
    reveal_strlit("}");
    assert(s.subrange(o8, o9)[0] == "}"@[0]);
    assert(s[o8] == '}');
    lemma_p_obj_end(s, o8);
    assert(p_menu(s, i) == PRes::Parsed(m, i + w.len()));
}


/// One arm of the effect round trip.
#[verifier::rlimit(100)]
#[verifier::spinoff_prover]
proof fn lemma_p_effect_ser_stop_client(s: Seq<char>, i: int)
    requires
        0 <= i,
        i + ser_effect(EffectV::StopClient).len() <= s.len(),
        s.subrange(i, i + ser_effect(EffectV::StopClient).len()) == ser_effect(EffectV::StopClient),
    ensures
        p_effect(s, i) == PRes::Parsed(EffectV::StopClient, i + ser_effect(EffectV::StopClient).len()),
{
    let w = ser_effect(EffectV::StopClient);
    let o0: int = i;

    reveal_strlit("stop_client");
    reveal_strlit("\"stop_client\"");
    assert(forall|k: int| 0 <= k < "stop_client"@.len() ==> (#[trigger] "stop_client"@[k]) != '"' && "stop_client"@[k] != '\\' && ("stop_client"@[k] as u32) >= 0x20);
    lemma_ser_str_body_plain("stop_client"@);
    assert(ser_string("stop_client"@) =~= "\"stop_client\""@);
    assert(s.subrange(o0, o0 + ser_string("stop_client"@).len()) == ser_string("stop_client"@));
    lemma_p_string_ser(s, o0, "stop_client"@);
    assert(s[o0] == '"') by {
        assert(s.subrange(o0, o0 + w.len())[0] == "\"stop_client\""@[0]);
    }
    lemma_skip_ws_still(s, o0);
    assert(p_str_body(s, o0 + 1) == PRes::Parsed("stop_client"@, o0 + w.len()));
    assert(p_effect(s, i) == PRes::Parsed(EffectV::StopClient, i + w.len()));

}

/// One arm of the effect round trip.
#[verifier::rlimit(100)]
#[verifier::spinoff_prover]
proof fn lemma_p_effect_ser_stop_server(s: Seq<char>, i: int)
    requires
        0 <= i,
        i + ser_effect(EffectV::StopServer).len() <= s.len(),
        s.subrange(i, i + ser_effect(EffectV::StopServer).len()) == ser_effect(EffectV::StopServer),
    ensures
        p_effect(s, i) == PRes::Parsed(EffectV::StopServer, i + ser_effect(EffectV::StopServer).len()),
{
    let w = ser_effect(EffectV::StopServer);
    let o0: int = i;

    reveal_strlit("stop_server");
    reveal_strlit("\"stop_server\"");
    assert(forall|k: int| 0 <= k < "stop_server"@.len() ==> (#[trigger] "stop_server"@[k]) != '"' && "stop_server"@[k] != '\\' && ("stop_server"@[k] as u32) >= 0x20);
    lemma_ser_str_body_plain("stop_server"@);
    assert(ser_string("stop_server"@) =~= "\"stop_server\""@);
    assert(s.subrange(o0, o0 + ser_string("stop_server"@).len()) == ser_string("stop_server"@));
    lemma_p_string_ser(s, o0, "stop_server"@);
    assert(s[o0] == '"') by {
        assert(s.subrange(o0, o0 + w.len())[0] == "\"stop_server\""@[0]);
    }
    lemma_skip_ws_still(s, o0);
    assert(p_str_body(s, o0 + 1) == PRes::Parsed("stop_server"@, o0 + w.len()));
    reveal_strlit("stop_client");
    assert("stop_server"@[5] != "stop_client"@[5]);
    assert("stop_server"@ != "stop_client"@);
    assert(p_effect(s, i) == PRes::Parsed(EffectV::StopServer, i + w.len()));

}

/// One arm of the effect round trip.
#[verifier::rlimit(100)]
#[verifier::spinoff_prover]
proof fn lemma_p_effect_ser_commit(s: Seq<char>, i: int, t: Seq<char>)
    requires
        0 <= i,
        i + ser_effect(EffectV::CommitString(t)).len() <= s.len(),
        s.subrange(i, i + ser_effect(EffectV::CommitString(t)).len()) == ser_effect(EffectV::CommitString(t)),
    ensures
        p_effect(s, i) == PRes::Parsed(EffectV::CommitString(t), i + ser_effect(EffectV::CommitString(t)).len()),
{
    let w = ser_effect(EffectV::CommitString(t));
    let o0: int = i;

    assert(w =~= "{\"commit_string\":"@ + (ser_string(t) + ("}"@)));
    assert(s.subrange(o0, o0 + (w).len()) == w);
    let o1: int = o0 + ("{\"commit_string\":"@).len();
    let o2: int = o1 + (ser_string(t)).len();
    let o3: int = o2 + ("}"@).len();
    assert(s.subrange(o0, o0 + ("{\"commit_string\":"@).len() + (ser_string(t) + ("}"@)).len()) == ("{\"commit_string\":"@) + (ser_string(t) + ("}"@)));
    lemma_region_split(s, o0, "{\"commit_string\":"@, ser_string(t) + ("}"@));
    assert((ser_string(t) + ("}"@)) =~= (ser_string(t)) + ("}"@));
    assert(s.subrange(o1, o1 + (ser_string(t)).len() + ("}"@).len()) == (ser_string(t)) + ("}"@));
    lemma_region_split(s, o1, ser_string(t), "}"@);
    assert(s.subrange(o0, o1) == ("{\"commit_string\":"@));
    assert(s.subrange(o1, o2) == (ser_string(t)));
    assert(s.subrange(o2, o3) == ("}"@));
    reveal_strlit("{\"commit_string\":");
    reveal_strlit("\"commit_string\"");
    assert("{\"commit_string\":"@ =~= seq!['{'] + "\"commit_string\""@ + seq![':']);
    reveal_strlit("\"commit_string\"");
    assert(s.subrange(o0, o0 + "\"commit_string\""@.len() + 2) == seq!['{'] + "\"commit_string\""@ + seq![':']);
    lemma_p_obj_first_key(s, o0, "\"commit_string\""@);
    assert(p_obj_first_key(s, o0, "\"commit_string\""@) == PRes::<()>::Parsed((), o1));
    lemma_p_string_ser(s, o1, t);
    reveal_strlit("}");
    assert(s.subrange(o2, o3)[0] == "}"@[0]);
    assert(s[o2] == '}');
    lemma_p_obj_end(s, o2);
    assert(s.subrange(o0, o1)[0] == "{\"commit_string\":"@[0]);
    assert(s[o0] == '{');
    lemma_skip_ws_still(s, o0);
    assert(p_effect(s, i) == PRes::Parsed(EffectV::CommitString(t), i + w.len()));

}

/// The token structure of a serialized `update_ui` effect: where each
/// piece stands, and that the commit-string probe fails on it.
#[verifier::rlimit(100)]
#[verifier::spinoff_prover]
proof fn lemma_p_effect_update_tokens(s: Seq<char>, i: int, composition: RimeCompositionV, menu: RimeMenuV)
    requires
        0 <= i,
        i + ser_effect(EffectV::UpdateUi { composition, menu }).len() <= s.len(),
        s.subrange(i, i + ser_effect(EffectV::UpdateUi { composition, menu }).len()) == ser_effect(EffectV::UpdateUi { composition, menu }),
    ensures
        skip_ws(s, i) == i,
        i < s.len() && s[i] == '{',
        p_obj_first_key(s, i, "\"commit_string\""@) is Fail,
        ({
            let o1 = i + ("{\"update_ui\":{\"composition\":"@).len();
            let o2 = o1 + ser_composition(composition).len();
            let o3 = o2 + (",\"menu\":"@).len();
            let o4 = o3 + ser_menu(menu).len();
            let p1 = i + (seq!['{'] + "\"update_ui\""@ + seq![':']).len();
            &&& p_obj_first_key(s, i, "\"update_ui\""@) == PRes::<()>::Parsed((), p1)
            &&& p_obj_first_key(s, p1, "\"composition\""@) == PRes::<()>::Parsed((), o1)
            &&& 0 <= o1 && o2 <= s.len()
            &&& s.subrange(o1, o2) == ser_composition(composition)
            &&& p_next_key(s, o2, "\"menu\""@) == PRes::<()>::Parsed((), o3)
            &&& o4 + 2 <= s.len()
            &&& s.subrange(o3, o4) == ser_menu(menu)
            &&& p_obj_end(s, o4) == PRes::<()>::Parsed((), o4 + 1)
            &&& p_obj_end(s, o4 + 1) == PRes::<()>::Parsed((), o4 + 2)
            &&& i + ser_effect(EffectV::UpdateUi { composition, menu }).len() == o4 + 2
        }),
{
    let w = ser_effect(EffectV::UpdateUi { composition, menu });
    let o0: int = i;

    assert(w =~= "{\"update_ui\":{\"composition\":"@ + (ser_composition(composition) + (",\"menu\":"@ + (ser_menu(menu) + ("}}"@)))));
    assert(s.subrange(o0, o0 + (w).len()) == w);
    let o1: int = o0 + ("{\"update_ui\":{\"composition\":"@).len();
    let o2: int = o1 + (ser_composition(composition)).len();
    let o3: int = o2 + (",\"menu\":"@).len();
    let o4: int = o3 + (ser_menu(menu)).len();
    let o5: int = o4 + ("}}"@).len();
    assert(s.subrange(o0, o0 + ("{\"update_ui\":{\"composition\":"@).len() + (ser_composition(composition) + (",\"menu\":"@ + (ser_menu(menu) + ("}}"@)))).len()) == ("{\"update_ui\":{\"composition\":"@) + (ser_composition(composition) + (",\"menu\":"@ + (ser_menu(menu) + ("}}"@)))));
    lemma_region_split(s, o0, "{\"update_ui\":{\"composition\":"@, ser_composition(composition) + (",\"menu\":"@ + (ser_menu(menu) + ("}}"@))));
    assert((ser_composition(composition) + (",\"menu\":"@ + (ser_menu(menu) + ("}}"@)))) =~= (ser_composition(composition)) + (",\"menu\":"@ + (ser_menu(menu) + ("}}"@))));
    assert(s.subrange(o1, o1 + (ser_composition(composition)).len() + (",\"menu\":"@ + (ser_menu(menu) + ("}}"@))).len()) == (ser_composition(composition)) + (",\"menu\":"@ + (ser_menu(menu) + ("}}"@))));
    lemma_region_split(s, o1, ser_composition(composition), ",\"menu\":"@ + (ser_menu(menu) + ("}}"@)));
    assert((",\"menu\":"@ + (ser_menu(menu) + ("}}"@))) =~= (",\"menu\":"@) + (ser_menu(menu) + ("}}"@)));
    assert(s.subrange(o2, o2 + (",\"menu\":"@).len() + (ser_menu(menu) + ("}}"@)).len()) == (",\"menu\":"@) + (ser_menu(menu) + ("}}"@)));
    lemma_region_split(s, o2, ",\"menu\":"@, ser_menu(menu) + ("}}"@));
    assert((ser_menu(menu) + ("}}"@)) =~= (ser_menu(menu)) + ("}}"@));
    assert(s.subrange(o3, o3 + (ser_menu(menu)).len() + ("}}"@).len()) == (ser_menu(menu)) + ("}}"@));
    lemma_region_split(s, o3, ser_menu(menu), "}}"@);
    assert(s.subrange(o0, o1) == ("{\"update_ui\":{\"composition\":"@));
    assert(s.subrange(o1, o2) == (ser_composition(composition)));
    assert(s.subrange(o2, o3) == (",\"menu\":"@));
    assert(s.subrange(o3, o4) == (ser_menu(menu)));
    assert(s.subrange(o4, o5) == ("}}"@));
    reveal_strlit("\"commit_string\"");
    reveal_strlit("{\"update_ui\":{\"composition\":");
    assert(s.subrange(o0, o1)[0] == "{\"update_ui\":{\"composition\":"@[0]);
    assert(s.subrange(o0, o1)[1] == "{\"update_ui\":{\"composition\":"@[1]);
    assert(s.subrange(o0, o1)[2] == "{\"update_ui\":{\"composition\":"@[2]);
    assert(s[o0] == '{');
    lemma_skip_ws_still(s, o0);
    lemma_skip_ws_still(s, o0 + 1);
    assert forall|j: int| 0 <= j < 1 implies s[(o0 + 1) + j] == "\"commit_string\""@[j] by {
        if j == 0 {
            assert(s[(o0 + 1) + 0] == "\"commit_string\""@[0]);
        }
    }
    assert(s[(o0 + 1) + 1] != "\"commit_string\""@[1]);
    lemma_p_lit_mismatch(s, o0 + 1, "\"commit_string\""@, 1);
    assert(p_obj_first_key(s, o0, "\"commit_string\""@) is Fail);
    let p0: int = o0;
    reveal_strlit("\"update_ui\"");
    reveal_strlit("\"composition\"");
    assert(("{\"update_ui\":{\"composition\":"@) =~= (seq!['{'] + "\"update_ui\""@ + seq![':']) + ((seq!['{'] + "\"composition\""@ + seq![':'])));
    assert(s.subrange(p0, p0 + (("{\"update_ui\":{\"composition\":"@)).len()) == ("{\"update_ui\":{\"composition\":"@));
    let p1: int = p0 + ((seq!['{'] + "\"update_ui\""@ + seq![':'])).len();
    let p2: int = p1 + ((seq!['{'] + "\"composition\""@ + seq![':'])).len();
    assert(s.subrange(p0, p0 + ((seq!['{'] + "\"update_ui\""@ + seq![':'])).len() + ((seq!['{'] + "\"composition\""@ + seq![':'])).len()) == ((seq!['{'] + "\"update_ui\""@ + seq![':'])) + ((seq!['{'] + "\"composition\""@ + seq![':'])));
    lemma_region_split(s, p0, (seq!['{'] + "\"update_ui\""@ + seq![':']), (seq!['{'] + "\"composition\""@ + seq![':']));
    assert(s.subrange(p0, p1) == ((seq!['{'] + "\"update_ui\""@ + seq![':'])));
    assert(s.subrange(p1, p2) == ((seq!['{'] + "\"composition\""@ + seq![':'])));
    reveal_strlit("\"update_ui\"");
    assert(s.subrange(p0, p0 + "\"update_ui\""@.len() + 2) == seq!['{'] + "\"update_ui\""@ + seq![':']);
    lemma_p_obj_first_key(s, p0, "\"update_ui\""@);
    assert(p_obj_first_key(s, p0, "\"update_ui\""@) == PRes::<()>::Parsed((), p1));
    reveal_strlit("\"composition\"");
    assert(s.subrange(p1, p1 + "\"composition\""@.len() + 2) == seq!['{'] + "\"composition\""@ + seq![':']);
    lemma_p_obj_first_key(s, p1, "\"composition\""@);
    assert(p_obj_first_key(s, p1, "\"composition\""@) == PRes::<()>::Parsed((), p2));
    reveal_strlit("\"menu\"");
    reveal_strlit(",\"menu\":");
    assert((",\"menu\":"@) =~= seq![','] + "\"menu\""@ + seq![':']);
    assert(s.subrange(o2, o2 + "\"menu\""@.len() + 2) == seq![','] + "\"menu\""@ + seq![':']);
    lemma_p_next_key(s, o2, "\"menu\""@);
    assert(p_next_key(s, o2, "\"menu\""@) == PRes::<()>::Parsed((), o3));
    reveal_strlit("}}");
    assert(s.subrange(o4, o5)[0] == "}}"@[0]);
    assert(s.subrange(o4, o5)[1] == "}}"@[1]);
    assert(s[o4] == '}' && s[o4 + 1] == '}');
    lemma_p_obj_end(s, o4);
    lemma_p_obj_end(s, o4 + 1);

}


/// One arm of the effect round trip.
#[verifier::rlimit(100)]
#[verifier::spinoff_prover]
proof fn lemma_p_effect_ser_update(s: Seq<char>, i: int, composition: RimeCompositionV, menu: RimeMenuV)
    requires
        0 <= i,
        i + ser_effect(EffectV::UpdateUi { composition, menu }).len() <= s.len(),
        s.subrange(i, i + ser_effect(EffectV::UpdateUi { composition, menu }).len()) == ser_effect(EffectV::UpdateUi { composition, menu }),
    ensures
        p_effect(s, i) == PRes::Parsed(EffectV::UpdateUi { composition, menu }, i + ser_effect(EffectV::UpdateUi { composition, menu }).len()),
{
    lemma_p_effect_update_tokens(s, i, composition, menu);
    let o1 = i + ("{\"update_ui\":{\"composition\":"@).len();
    let o2 = o1 + ser_composition(composition).len();
    let o3 = o2 + (",\"menu\":"@).len();
    lemma_p_composition_ser(s, o1, composition);
    lemma_p_menu_ser(s, o3, menu);
    assert(p_effect(s, i) == PRes::Parsed(
        EffectV::UpdateUi { composition, menu },
        i + ser_effect(EffectV::UpdateUi { composition, menu }).len(),
    ));
}

/// A serialized effect parses back to its value.
pub proof fn lemma_p_effect_ser(s: Seq<char>, i: int, e: EffectV)
    requires
        0 <= i,
        i + ser_effect(e).len() <= s.len(),
        s.subrange(i, i + ser_effect(e).len()) == ser_effect(e),
    ensures
        p_effect(s, i) == PRes::Parsed(e, i + ser_effect(e).len()),
{
    match e {
        EffectV::StopClient => lemma_p_effect_ser_stop_client(s, i),
        EffectV::StopServer => lemma_p_effect_ser_stop_server(s, i),
        EffectV::CommitString(t) => lemma_p_effect_ser_commit(s, i, t),
        EffectV::UpdateUi { composition, menu } => lemma_p_effect_ser_update(
            s,
            i,
            composition,
            menu,
        ),
    }
}

/// One arm of the p_outcome round trip.
#[verifier::rlimit(100)]
#[verifier::spinoff_prover]
proof fn lemma_p_outcome_ser_effect(s: Seq<char>, i: int, e: EffectV)
    requires
        0 <= i,
        i + ser_outcome(OutcomeV::Effect(e)).len() <= s.len(),
        s.subrange(i, i + ser_outcome(OutcomeV::Effect(e)).len()) == ser_outcome(OutcomeV::Effect(e)),
    ensures
        p_outcome(s, i) == PRes::Parsed(OutcomeV::Effect(e), i + ser_outcome(OutcomeV::Effect(e)).len()),
{
    let w = ser_outcome(OutcomeV::Effect(e));
    let o0: int = i;
    assert(w =~= "{\"effect\":"@ + (ser_effect(e) + ("}"@)));
    assert(s.subrange(o0, o0 + (w).len()) == w);
    let o1: int = o0 + ("{\"effect\":"@).len();
    let o2: int = o1 + (ser_effect(e)).len();
    let o3: int = o2 + ("}"@).len();
    assert(s.subrange(o0, o0 + ("{\"effect\":"@).len() + (ser_effect(e) + ("}"@)).len()) == ("{\"effect\":"@) + (ser_effect(e) + ("}"@)));
    lemma_region_split(s, o0, "{\"effect\":"@, ser_effect(e) + ("}"@));
    assert((ser_effect(e) + ("}"@)) =~= (ser_effect(e)) + ("}"@));
    assert(s.subrange(o1, o1 + (ser_effect(e)).len() + ("}"@).len()) == (ser_effect(e)) + ("}"@));
    lemma_region_split(s, o1, ser_effect(e), "}"@);
    assert(s.subrange(o0, o1) == ("{\"effect\":"@));
    assert(s.subrange(o1, o2) == (ser_effect(e)));
    assert(s.subrange(o2, o3) == ("}"@));
    reveal_strlit("\"effect\"");
    reveal_strlit("{\"effect\":");
    assert(("{\"effect\":"@) =~= seq!['{'] + "\"effect\""@ + seq![':']);
    assert(s.subrange(o0, o0 + "\"effect\""@.len() + 2) == seq!['{'] + "\"effect\""@ + seq![':']);
    lemma_p_obj_first_key(s, o0, "\"effect\""@);
    assert(p_obj_first_key(s, o0, "\"effect\""@) == PRes::<()>::Parsed((), o1));
    lemma_p_effect_ser(s, o1, e);
    reveal_strlit("}");
    assert(s.subrange(o2, o3)[0] == "}"@[0]);
    assert(s[o2] == '}');
    lemma_p_obj_end(s, o2);
    assert(p_outcome(s, i) == PRes::Parsed(OutcomeV::Effect(e), i + w.len()));
}

/// A serialized error identifier parses back to its value.
#[verifier::rlimit(100)]
#[verifier::spinoff_prover]
proof fn lemma_p_error_id_ser(s: Seq<char>, i: int, id: ErrorId)
    requires
        0 <= i,
        i + ser_error_id(id).len() <= s.len(),
        s.subrange(i, i + ser_error_id(id).len()) == ser_error_id(id),
    ensures
        p_error_id(s, i) == PRes::Parsed(id, i + ser_error_id(id).len()),
{
    match id {
        ErrorId::UnsupportedInput => {
        reveal_strlit("unsupported_input");
        reveal_strlit("\"unsupported_input\"");
        assert(forall|k: int| 0 <= k < "unsupported_input"@.len() ==> (#[trigger] "unsupported_input"@[k]) != '"' && "unsupported_input"@[k] != '\\' && ("unsupported_input"@[k] as u32) >= 0x20);
        lemma_ser_str_body_plain("unsupported_input"@);
        assert(ser_string("unsupported_input"@) =~= "\"unsupported_input\""@);
        assert(s.subrange(i, i + ser_string("unsupported_input"@).len()) == ser_string("unsupported_input"@));
        lemma_p_string_ser(s, i, "unsupported_input"@);
        assert(p_error_id(s, i) == PRes::Parsed(ErrorId::UnsupportedInput, i + ser_error_id(id).len()));
    },
        ErrorId::MoreThanOneClient => {
        reveal_strlit("more_than_one_client");
        reveal_strlit("\"more_than_one_client\"");
        assert(forall|k: int| 0 <= k < "more_than_one_client"@.len() ==> (#[trigger] "more_than_one_client"@[k]) != '"' && "more_than_one_client"@[k] != '\\' && ("more_than_one_client"@[k] as u32) >= 0x20);
        lemma_ser_str_body_plain("more_than_one_client"@);
        assert(ser_string("more_than_one_client"@) =~= "\"more_than_one_client\""@);
        assert(s.subrange(i, i + ser_string("more_than_one_client"@).len()) == ser_string("more_than_one_client"@));
        lemma_p_string_ser(s, i, "more_than_one_client"@);
        reveal_strlit("unsupported_input");
        assert("more_than_one_client"@.len() != "unsupported_input"@.len());
        assert("more_than_one_client"@ != "unsupported_input"@);
        assert(p_error_id(s, i) == PRes::Parsed(ErrorId::MoreThanOneClient, i + ser_error_id(id).len()));
    },
        ErrorId::JsonError => {
        reveal_strlit("json_error");
        reveal_strlit("\"json_error\"");
        assert(forall|k: int| 0 <= k < "json_error"@.len() ==> (#[trigger] "json_error"@[k]) != '"' && "json_error"@[k] != '\\' && ("json_error"@[k] as u32) >= 0x20);
        lemma_ser_str_body_plain("json_error"@);
        assert(ser_string("json_error"@) =~= "\"json_error\""@);
        assert(s.subrange(i, i + ser_string("json_error"@).len()) == ser_string("json_error"@));
        lemma_p_string_ser(s, i, "json_error"@);
        reveal_strlit("unsupported_input");
        assert("json_error"@.len() != "unsupported_input"@.len());
        assert("json_error"@ != "unsupported_input"@);
        reveal_strlit("more_than_one_client");
        assert("json_error"@.len() != "more_than_one_client"@.len());
        assert("json_error"@ != "more_than_one_client"@);
        assert(p_error_id(s, i) == PRes::Parsed(ErrorId::JsonError, i + ser_error_id(id).len()));
    },
        ErrorId::IoError => {
        reveal_strlit("io_error");
        reveal_strlit("\"io_error\"");
        assert(forall|k: int| 0 <= k < "io_error"@.len() ==> (#[trigger] "io_error"@[k]) != '"' && "io_error"@[k] != '\\' && ("io_error"@[k] as u32) >= 0x20);
        lemma_ser_str_body_plain("io_error"@);
        assert(ser_string("io_error"@) =~= "\"io_error\""@);
        assert(s.subrange(i, i + ser_string("io_error"@).len()) == ser_string("io_error"@));
        lemma_p_string_ser(s, i, "io_error"@);
        reveal_strlit("unsupported_input");
        assert("io_error"@.len() != "unsupported_input"@.len());
        assert("io_error"@ != "unsupported_input"@);
        reveal_strlit("more_than_one_client");
        assert("io_error"@.len() != "more_than_one_client"@.len());
        assert("io_error"@ != "more_than_one_client"@);
        reveal_strlit("json_error");
        assert("io_error"@.len() != "json_error"@.len());
        assert("io_error"@ != "json_error"@);
        assert(p_error_id(s, i) == PRes::Parsed(ErrorId::IoError, i + ser_error_id(id).len()));
    },
        ErrorId::OptionNotFound => {
        reveal_strlit("option_not_found");
        reveal_strlit("\"option_not_found\"");
        assert(forall|k: int| 0 <= k < "option_not_found"@.len() ==> (#[trigger] "option_not_found"@[k]) != '"' && "option_not_found"@[k] != '\\' && ("option_not_found"@[k] as u32) >= 0x20);
        lemma_ser_str_body_plain("option_not_found"@);
        assert(ser_string("option_not_found"@) =~= "\"option_not_found\""@);
        assert(s.subrange(i, i + ser_string("option_not_found"@).len()) == ser_string("option_not_found"@));
        lemma_p_string_ser(s, i, "option_not_found"@);
        reveal_strlit("unsupported_input");
        assert("option_not_found"@.len() != "unsupported_input"@.len());
        assert("option_not_found"@ != "unsupported_input"@);
        reveal_strlit("more_than_one_client");
        assert("option_not_found"@.len() != "more_than_one_client"@.len());
        assert("option_not_found"@ != "more_than_one_client"@);
        reveal_strlit("json_error");
        assert("option_not_found"@.len() != "json_error"@.len());
        assert("option_not_found"@ != "json_error"@);
        reveal_strlit("io_error");
        assert("option_not_found"@.len() != "io_error"@.len());
        assert("option_not_found"@ != "io_error"@);
        assert(p_error_id(s, i) == PRes::Parsed(ErrorId::OptionNotFound, i + ser_error_id(id).len()));
    },
        ErrorId::ConfigNotFound => {
        reveal_strlit("config_not_found");
        reveal_strlit("\"config_not_found\"");
        assert(forall|k: int| 0 <= k < "config_not_found"@.len() ==> (#[trigger] "config_not_found"@[k]) != '"' && "config_not_found"@[k] != '\\' && ("config_not_found"@[k] as u32) >= 0x20);
        lemma_ser_str_body_plain("config_not_found"@);
        assert(ser_string("config_not_found"@) =~= "\"config_not_found\""@);
        assert(s.subrange(i, i + ser_string("config_not_found"@).len()) == ser_string("config_not_found"@));
        lemma_p_string_ser(s, i, "config_not_found"@);
        reveal_strlit("unsupported_input");
        assert("config_not_found"@.len() != "unsupported_input"@.len());
        assert("config_not_found"@ != "unsupported_input"@);
        reveal_strlit("more_than_one_client");
        assert("config_not_found"@.len() != "more_than_one_client"@.len());
        assert("config_not_found"@ != "more_than_one_client"@);
        reveal_strlit("json_error");
        assert("config_not_found"@.len() != "json_error"@.len());
        assert("config_not_found"@ != "json_error"@);
        reveal_strlit("io_error");
        assert("config_not_found"@.len() != "io_error"@.len());
        assert("config_not_found"@ != "io_error"@);
        reveal_strlit("option_not_found");
        assert("config_not_found"@[0] != "option_not_found"@[0]);
        assert("config_not_found"@ != "option_not_found"@);
        assert(p_error_id(s, i) == PRes::Parsed(ErrorId::ConfigNotFound, i + ser_error_id(id).len()));
    },
    }
}

/// One arm of the p_outcome round trip.
#[verifier::rlimit(100)]
#[verifier::spinoff_prover]
proof fn lemma_p_outcome_ser_error(s: Seq<char>, i: int, id: ErrorId, message: Seq<char>)
    requires
        0 <= i,
        i + ser_outcome((OutcomeV::Error { id, message })).len() <= s.len(),
        s.subrange(i, i + ser_outcome((OutcomeV::Error { id, message })).len()) == ser_outcome((OutcomeV::Error { id, message })),
    ensures
        p_outcome(s, i) == PRes::Parsed((OutcomeV::Error { id, message }), i + ser_outcome((OutcomeV::Error { id, message })).len()),
{
    let w = ser_outcome((OutcomeV::Error { id, message }));
    let o0: int = i;
    assert(w =~= "{\"error\":{\"id\":"@ + (ser_error_id(id) + (",\"message\":"@ + (ser_string(message) + ("}}"@)))));
    assert(s.subrange(o0, o0 + (w).len()) == w);
    let o1: int = o0 + ("{\"error\":{\"id\":"@).len();
    let o2: int = o1 + (ser_error_id(id)).len();
    let o3: int = o2 + (",\"message\":"@).len();
    let o4: int = o3 + (ser_string(message)).len();
    let o5: int = o4 + ("}}"@).len();
    assert(s.subrange(o0, o0 + ("{\"error\":{\"id\":"@).len() + (ser_error_id(id) + (",\"message\":"@ + (ser_string(message) + ("}}"@)))).len()) == ("{\"error\":{\"id\":"@) + (ser_error_id(id) + (",\"message\":"@ + (ser_string(message) + ("}}"@)))));
    lemma_region_split(s, o0, "{\"error\":{\"id\":"@, ser_error_id(id) + (",\"message\":"@ + (ser_string(message) + ("}}"@))));
    assert((ser_error_id(id) + (",\"message\":"@ + (ser_string(message) + ("}}"@)))) =~= (ser_error_id(id)) + (",\"message\":"@ + (ser_string(message) + ("}}"@))));
    assert(s.subrange(o1, o1 + (ser_error_id(id)).len() + (",\"message\":"@ + (ser_string(message) + ("}}"@))).len()) == (ser_error_id(id)) + (",\"message\":"@ + (ser_string(message) + ("}}"@))));
    lemma_region_split(s, o1, ser_error_id(id), ",\"message\":"@ + (ser_string(message) + ("}}"@)));
    assert((",\"message\":"@ + (ser_string(message) + ("}}"@))) =~= (",\"message\":"@) + (ser_string(message) + ("}}"@)));
    assert(s.subrange(o2, o2 + (",\"message\":"@).len() + (ser_string(message) + ("}}"@)).len()) == (",\"message\":"@) + (ser_string(message) + ("}}"@)));
    lemma_region_split(s, o2, ",\"message\":"@, ser_string(message) + ("}}"@));
    assert((ser_string(message) + ("}}"@)) =~= (ser_string(message)) + ("}}"@));
    assert(s.subrange(o3, o3 + (ser_string(message)).len() + ("}}"@).len()) == (ser_string(message)) + ("}}"@));
    lemma_region_split(s, o3, ser_string(message), "}}"@);
    assert(s.subrange(o0, o1) == ("{\"error\":{\"id\":"@));
    assert(s.subrange(o1, o2) == (ser_error_id(id)));
    assert(s.subrange(o2, o3) == (",\"message\":"@));
    assert(s.subrange(o3, o4) == (ser_string(message)));
    assert(s.subrange(o4, o5) == ("}}"@));
    reveal_strlit("\"effect\"");
    reveal_strlit("{\"error\":{\"id\":");
    assert(s.subrange(o0, o1)[0] == "{\"error\":{\"id\":"@[0]);
    assert(s.subrange(o0, o1)[1] == "{\"error\":{\"id\":"@[1]);
    assert(s.subrange(o0, o1)[2] == "{\"error\":{\"id\":"@[2]);
    assert(s.subrange(o0, o1)[3] == "{\"error\":{\"id\":"@[3]);
    assert(s[o0] == '{');
    lemma_skip_ws_still(s, o0);
    lemma_skip_ws_still(s, o0 + 1);
    assert forall|j: int| 0 <= j < 2 implies s[(o0 + 1) + j] == "\"effect\""@[j] by {
        if j == 0 {
            assert(s[(o0 + 1) + 0] == "\"effect\""@[0]);
        }
        if j == 1 {
            assert(s[(o0 + 1) + 1] == "\"effect\""@[1]);
        }
    }
    assert(s[(o0 + 1) + 2] != "\"effect\""@[2]);
    lemma_p_lit_mismatch(s, o0 + 1, "\"effect\""@, 2);
    assert(p_obj_first_key(s, o0, "\"effect\""@) is Fail);
    let p0: int = o0;
    reveal_strlit("\"error\"");
    reveal_strlit("\"id\"");
    assert(("{\"error\":{\"id\":"@) =~= (seq!['{'] + "\"error\""@ + seq![':']) + ((seq!['{'] + "\"id\""@ + seq![':'])));
    assert(s.subrange(p0, p0 + (("{\"error\":{\"id\":"@)).len()) == ("{\"error\":{\"id\":"@));
    let p1: int = p0 + ((seq!['{'] + "\"error\""@ + seq![':'])).len();
    let p2: int = p1 + ((seq!['{'] + "\"id\""@ + seq![':'])).len();
    assert(s.subrange(p0, p0 + ((seq!['{'] + "\"error\""@ + seq![':'])).len() + ((seq!['{'] + "\"id\""@ + seq![':'])).len()) == ((seq!['{'] + "\"error\""@ + seq![':'])) + ((seq!['{'] + "\"id\""@ + seq![':'])));
    lemma_region_split(s, p0, (seq!['{'] + "\"error\""@ + seq![':']), (seq!['{'] + "\"id\""@ + seq![':']));
    assert(s.subrange(p0, p1) == ((seq!['{'] + "\"error\""@ + seq![':'])));
    assert(s.subrange(p1, p2) == ((seq!['{'] + "\"id\""@ + seq![':'])));
    assert(s.subrange(p0, p0 + "\"error\""@.len() + 2) == seq!['{'] + "\"error\""@ + seq![':']);
    lemma_p_obj_first_key(s, p0, "\"error\""@);
    assert(s.subrange(p1, p1 + "\"id\""@.len() + 2) == seq!['{'] + "\"id\""@ + seq![':']);
    lemma_p_obj_first_key(s, p1, "\"id\""@);
    lemma_p_error_id_ser(s, o1, id);
    assert(p_error_id(s, o1) == PRes::Parsed(id, o2));
    reveal_strlit("\"message\"");
    reveal_strlit(",\"message\":");
    assert((",\"message\":"@) =~= seq![','] + "\"message\""@ + seq![':']);
    assert(s.subrange(o2, o2 + "\"message\""@.len() + 2) == seq![','] + "\"message\""@ + seq![':']);
    lemma_p_next_key(s, o2, "\"message\""@);
    assert(p_next_key(s, o2, "\"message\""@) == PRes::<()>::Parsed((), o3));
    lemma_p_string_ser(s, o3, message);
    reveal_strlit("}}");
    assert(s.subrange(o4, o5)[0] == "}}"@[0]);
    assert(s.subrange(o4, o5)[1] == "}}"@[1]);
    assert(s[o4] == '}' && s[o4 + 1] == '}');
    lemma_p_obj_end(s, o4);
    lemma_p_obj_end(s, o4 + 1);
    assert(p_outcome(s, i) == PRes::Parsed(OutcomeV::Error { id, message }, i + w.len()));
}

/// One arm of the p_outcome round trip.
#[verifier::rlimit(100)]
#[verifier::spinoff_prover]
proof fn lemma_p_outcome_ser_schema(s: Seq<char>, i: int, n: Seq<char>)
    requires
        0 <= i,
        i + ser_outcome(OutcomeV::SchemaName(n)).len() <= s.len(),
        s.subrange(i, i + ser_outcome(OutcomeV::SchemaName(n)).len()) == ser_outcome(OutcomeV::SchemaName(n)),
    ensures
        p_outcome(s, i) == PRes::Parsed(OutcomeV::SchemaName(n), i + ser_outcome(OutcomeV::SchemaName(n)).len()),
{
    let w = ser_outcome(OutcomeV::SchemaName(n));
    let o0: int = i;
    assert(w =~= "{\"schema_name\":"@ + (ser_string(n) + ("}"@)));
    assert(s.subrange(o0, o0 + (w).len()) == w);
    let o1: int = o0 + ("{\"schema_name\":"@).len();
    let o2: int = o1 + (ser_string(n)).len();
    let o3: int = o2 + ("}"@).len();
    assert(s.subrange(o0, o0 + ("{\"schema_name\":"@).len() + (ser_string(n) + ("}"@)).len()) == ("{\"schema_name\":"@) + (ser_string(n) + ("}"@)));
    lemma_region_split(s, o0, "{\"schema_name\":"@, ser_string(n) + ("}"@));
    assert((ser_string(n) + ("}"@)) =~= (ser_string(n)) + ("}"@));
    assert(s.subrange(o1, o1 + (ser_string(n)).len() + ("}"@).len()) == (ser_string(n)) + ("}"@));
    lemma_region_split(s, o1, ser_string(n), "}"@);
    assert(s.subrange(o0, o1) == ("{\"schema_name\":"@));
    assert(s.subrange(o1, o2) == (ser_string(n)));
    assert(s.subrange(o2, o3) == ("}"@));
    reveal_strlit("\"effect\"");
    reveal_strlit("{\"schema_name\":");
    assert(s.subrange(o0, o1)[0] == "{\"schema_name\":"@[0]);
    assert(s.subrange(o0, o1)[1] == "{\"schema_name\":"@[1]);
    assert(s.subrange(o0, o1)[2] == "{\"schema_name\":"@[2]);
    assert(s[o0] == '{');
    lemma_skip_ws_still(s, o0);
    lemma_skip_ws_still(s, o0 + 1);
    assert forall|j: int| 0 <= j < 1 implies s[(o0 + 1) + j] == "\"effect\""@[j] by {
        if j == 0 {
            assert(s[(o0 + 1) + 0] == "\"effect\""@[0]);
        }
    }
    assert(s[(o0 + 1) + 1] != "\"effect\""@[1]);
    lemma_p_lit_mismatch(s, o0 + 1, "\"effect\""@, 1);
    assert(p_obj_first_key(s, o0, "\"effect\""@) is Fail);
    reveal_strlit("\"error\"");
    reveal_strlit("{\"schema_name\":");
    assert(s.subrange(o0, o1)[0] == "{\"schema_name\":"@[0]);
    assert(s.subrange(o0, o1)[1] == "{\"schema_name\":"@[1]);
    assert(s.subrange(o0, o1)[2] == "{\"schema_name\":"@[2]);
    assert(s[o0] == '{');
    lemma_skip_ws_still(s, o0);
    lemma_skip_ws_still(s, o0 + 1);
    assert forall|j: int| 0 <= j < 1 implies s[(o0 + 1) + j] == "\"error\""@[j] by {
        if j == 0 {
            assert(s[(o0 + 1) + 0] == "\"error\""@[0]);
        }
    }
    assert(s[(o0 + 1) + 1] != "\"error\""@[1]);
    lemma_p_lit_mismatch(s, o0 + 1, "\"error\""@, 1);
    assert(p_obj_first_key(s, o0, "\"error\""@) is Fail);
    reveal_strlit("\"schema_name\"");
    reveal_strlit("{\"schema_name\":");
    assert(("{\"schema_name\":"@) =~= seq!['{'] + "\"schema_name\""@ + seq![':']);
    assert(s.subrange(o0, o0 + "\"schema_name\""@.len() + 2) == seq!['{'] + "\"schema_name\""@ + seq![':']);
    lemma_p_obj_first_key(s, o0, "\"schema_name\""@);
    assert(p_obj_first_key(s, o0, "\"schema_name\""@) == PRes::<()>::Parsed((), o1));
    lemma_p_string_ser(s, o1, n);
    reveal_strlit("}");
    assert(s.subrange(o2, o3)[0] == "}"@[0]);
    assert(s[o2] == '}');
    lemma_p_obj_end(s, o2);
    assert(p_outcome(s, i) == PRes::Parsed(OutcomeV::SchemaName(n), i + w.len()));
}

/// One arm of the p_outcome round trip.
#[verifier::rlimit(100)]
#[verifier::spinoff_prover]
proof fn lemma_p_outcome_ser_config(s: Seq<char>, i: int, v: i64)
    requires
        0 <= i,
        i + ser_outcome(OutcomeV::ConfigValueInteger(v)).len() <= s.len(),
        s.subrange(i, i + ser_outcome(OutcomeV::ConfigValueInteger(v)).len()) == ser_outcome(OutcomeV::ConfigValueInteger(v)),
    ensures
        p_outcome(s, i) == PRes::Parsed(OutcomeV::ConfigValueInteger(v), i + ser_outcome(OutcomeV::ConfigValueInteger(v)).len()),
{
    let w = ser_outcome(OutcomeV::ConfigValueInteger(v));
    let o0: int = i;
    assert(w =~= "{\"config_value_integer\":"@ + (ser_i64(v) + ("}"@)));
    assert(s.subrange(o0, o0 + (w).len()) == w);
    let o1: int = o0 + ("{\"config_value_integer\":"@).len();
    let o2: int = o1 + (ser_i64(v)).len();
    let o3: int = o2 + ("}"@).len();
    assert(s.subrange(o0, o0 + ("{\"config_value_integer\":"@).len() + (ser_i64(v) + ("}"@)).len()) == ("{\"config_value_integer\":"@) + (ser_i64(v) + ("}"@)));
    lemma_region_split(s, o0, "{\"config_value_integer\":"@, ser_i64(v) + ("}"@));
    assert((ser_i64(v) + ("}"@)) =~= (ser_i64(v)) + ("}"@));
    assert(s.subrange(o1, o1 + (ser_i64(v)).len() + ("}"@).len()) == (ser_i64(v)) + ("}"@));
    lemma_region_split(s, o1, ser_i64(v), "}"@);
    assert(s.subrange(o0, o1) == ("{\"config_value_integer\":"@));
    assert(s.subrange(o1, o2) == (ser_i64(v)));
    assert(s.subrange(o2, o3) == ("}"@));
    reveal_strlit("\"effect\"");
    reveal_strlit("{\"config_value_integer\":");
    assert(s.subrange(o0, o1)[0] == "{\"config_value_integer\":"@[0]);
    assert(s.subrange(o0, o1)[1] == "{\"config_value_integer\":"@[1]);
    assert(s.subrange(o0, o1)[2] == "{\"config_value_integer\":"@[2]);
    assert(s[o0] == '{');
    lemma_skip_ws_still(s, o0);
    lemma_skip_ws_still(s, o0 + 1);
    assert forall|j: int| 0 <= j < 1 implies s[(o0 + 1) + j] == "\"effect\""@[j] by {
        if j == 0 {
            assert(s[(o0 + 1) + 0] == "\"effect\""@[0]);
        }
    }
    assert(s[(o0 + 1) + 1] != "\"effect\""@[1]);
    lemma_p_lit_mismatch(s, o0 + 1, "\"effect\""@, 1);
    assert(p_obj_first_key(s, o0, "\"effect\""@) is Fail);
    reveal_strlit("\"error\"");
    reveal_strlit("{\"config_value_integer\":");
    assert(s.subrange(o0, o1)[0] == "{\"config_value_integer\":"@[0]);
    assert(s.subrange(o0, o1)[1] == "{\"config_value_integer\":"@[1]);
    assert(s.subrange(o0, o1)[2] == "{\"config_value_integer\":"@[2]);
    assert(s[o0] == '{');
    lemma_skip_ws_still(s, o0);
    lemma_skip_ws_still(s, o0 + 1);
    assert forall|j: int| 0 <= j < 1 implies s[(o0 + 1) + j] == "\"error\""@[j] by {
        if j == 0 {
            assert(s[(o0 + 1) + 0] == "\"error\""@[0]);
        }
    }
    assert(s[(o0 + 1) + 1] != "\"error\""@[1]);
    lemma_p_lit_mismatch(s, o0 + 1, "\"error\""@, 1);
    assert(p_obj_first_key(s, o0, "\"error\""@) is Fail);
    reveal_strlit("\"schema_name\"");
    reveal_strlit("{\"config_value_integer\":");
    assert(s.subrange(o0, o1)[0] == "{\"config_value_integer\":"@[0]);
    assert(s.subrange(o0, o1)[1] == "{\"config_value_integer\":"@[1]);
    assert(s.subrange(o0, o1)[2] == "{\"config_value_integer\":"@[2]);
    assert(s[o0] == '{');
    lemma_skip_ws_still(s, o0);
    lemma_skip_ws_still(s, o0 + 1);
    assert forall|j: int| 0 <= j < 1 implies s[(o0 + 1) + j] == "\"schema_name\""@[j] by {
        if j == 0 {
            assert(s[(o0 + 1) + 0] == "\"schema_name\""@[0]);
        }
    }
    assert(s[(o0 + 1) + 1] != "\"schema_name\""@[1]);
    lemma_p_lit_mismatch(s, o0 + 1, "\"schema_name\""@, 1);
    assert(p_obj_first_key(s, o0, "\"schema_name\""@) is Fail);
    reveal_strlit("\"config_value_integer\"");
    reveal_strlit("{\"config_value_integer\":");
    assert(("{\"config_value_integer\":"@) =~= seq!['{'] + "\"config_value_integer\""@ + seq![':']);
    assert(s.subrange(o0, o0 + "\"config_value_integer\""@.len() + 2) == seq!['{'] + "\"config_value_integer\""@ + seq![':']);
    lemma_p_obj_first_key(s, o0, "\"config_value_integer\""@);
    assert(p_obj_first_key(s, o0, "\"config_value_integer\""@) == PRes::<()>::Parsed((), o1));
    reveal_strlit("}");
    assert(s.subrange(o2, o3)[0] == "}"@[0]);
    assert(!is_digit(s[o2]));
    lemma_p_i64_ser(s, o1, v);
    assert(s[o2] == '}');
    lemma_p_obj_end(s, o2);
    assert(p_outcome(s, i) == PRes::Parsed(OutcomeV::ConfigValueInteger(v), i + w.len()));
}

/// A serialized outcome parses back to its value.
pub proof fn lemma_p_outcome_ser(s: Seq<char>, i: int, o: OutcomeV)
    requires
        0 <= i,
        i + ser_outcome(o).len() <= s.len(),
        s.subrange(i, i + ser_outcome(o).len()) == ser_outcome(o),
    ensures
        p_outcome(s, i) == PRes::Parsed(o, i + ser_outcome(o).len()),
{
    match o {
        OutcomeV::Effect(e) => lemma_p_outcome_ser_effect(s, i, e),
        OutcomeV::Error { id, message } => lemma_p_outcome_ser_error(s, i, id, message),
        OutcomeV::SchemaName(n) => lemma_p_outcome_ser_schema(s, i, n),
        OutcomeV::ConfigValueInteger(v) => lemma_p_outcome_ser_config(s, i, v),
    }
}

/// One arm of the p_call round trip.
#[verifier::rlimit(100)]
#[verifier::spinoff_prover]
proof fn lemma_p_call_ser_key(s: Seq<char>, i: int, keycode: u32, mask: u32)
    requires
        0 <= i,
        i + ser_call((CallV::ProcessKey { keycode, mask })).len() <= s.len(),
        s.subrange(i, i + ser_call((CallV::ProcessKey { keycode, mask })).len()) == ser_call((CallV::ProcessKey { keycode, mask })),
    ensures
        p_call(s, i) == PRes::Parsed((CallV::ProcessKey { keycode, mask }), i + ser_call((CallV::ProcessKey { keycode, mask })).len()),
{
    let w = ser_call((CallV::ProcessKey { keycode, mask }));
    let o0: int = i;
    assert(w =~= "{\"method\":\"process_key\",\"params\":{\"keycode\":"@ + (ser_u32(keycode) + (",\"mask\":"@ + (ser_u32(mask) + ("}}"@)))));
    assert(s.subrange(o0, o0 + (w).len()) == w);
    let o1: int = o0 + ("{\"method\":\"process_key\",\"params\":{\"keycode\":"@).len();
    let o2: int = o1 + (ser_u32(keycode)).len();
    let o3: int = o2 + (",\"mask\":"@).len();
    let o4: int = o3 + (ser_u32(mask)).len();
    let o5: int = o4 + ("}}"@).len();
    assert(s.subrange(o0, o0 + ("{\"method\":\"process_key\",\"params\":{\"keycode\":"@).len() + (ser_u32(keycode) + (",\"mask\":"@ + (ser_u32(mask) + ("}}"@)))).len()) == ("{\"method\":\"process_key\",\"params\":{\"keycode\":"@) + (ser_u32(keycode) + (",\"mask\":"@ + (ser_u32(mask) + ("}}"@)))));
    lemma_region_split(s, o0, "{\"method\":\"process_key\",\"params\":{\"keycode\":"@, ser_u32(keycode) + (",\"mask\":"@ + (ser_u32(mask) + ("}}"@))));
    assert((ser_u32(keycode) + (",\"mask\":"@ + (ser_u32(mask) + ("}}"@)))) =~= (ser_u32(keycode)) + (",\"mask\":"@ + (ser_u32(mask) + ("}}"@))));
    assert(s.subrange(o1, o1 + (ser_u32(keycode)).len() + (",\"mask\":"@ + (ser_u32(mask) + ("}}"@))).len()) == (ser_u32(keycode)) + (",\"mask\":"@ + (ser_u32(mask) + ("}}"@))));
    lemma_region_split(s, o1, ser_u32(keycode), ",\"mask\":"@ + (ser_u32(mask) + ("}}"@)));
    assert((",\"mask\":"@ + (ser_u32(mask) + ("}}"@))) =~= (",\"mask\":"@) + (ser_u32(mask) + ("}}"@)));
    assert(s.subrange(o2, o2 + (",\"mask\":"@).len() + (ser_u32(mask) + ("}}"@)).len()) == (",\"mask\":"@) + (ser_u32(mask) + ("}}"@)));
    lemma_region_split(s, o2, ",\"mask\":"@, ser_u32(mask) + ("}}"@));
    assert((ser_u32(mask) + ("}}"@)) =~= (ser_u32(mask)) + ("}}"@));
    assert(s.subrange(o3, o3 + (ser_u32(mask)).len() + ("}}"@).len()) == (ser_u32(mask)) + ("}}"@));
    lemma_region_split(s, o3, ser_u32(mask), "}}"@);
    assert(s.subrange(o0, o1) == ("{\"method\":\"process_key\",\"params\":{\"keycode\":"@));
    assert(s.subrange(o1, o2) == (ser_u32(keycode)));
    assert(s.subrange(o2, o3) == (",\"mask\":"@));
    assert(s.subrange(o3, o4) == (ser_u32(mask)));
    assert(s.subrange(o4, o5) == ("}}"@));
    let p0: int = o0;
    reveal_strlit("\"method\"");
    reveal_strlit("\"process_key\"");
    reveal_strlit("\"params\"");
    reveal_strlit("\"keycode\"");
    reveal_strlit("{\"method\":\"process_key\",\"params\":{\"keycode\":");
    assert(("{\"method\":\"process_key\",\"params\":{\"keycode\":"@) =~= (seq!['{'] + "\"method\""@ + seq![':']) + ("\"process_key\""@ + ((seq![','] + "\"params\""@ + seq![':']) + ((seq!['{'] + "\"keycode\""@ + seq![':'])))));
    assert(s.subrange(p0, p0 + (("{\"method\":\"process_key\",\"params\":{\"keycode\":"@)).len()) == ("{\"method\":\"process_key\",\"params\":{\"keycode\":"@));
    let p1: int = p0 + ((seq!['{'] + "\"method\""@ + seq![':'])).len();
    let p2: int = p1 + ("\"process_key\""@).len();
    let p3: int = p2 + ((seq![','] + "\"params\""@ + seq![':'])).len();
    let p4: int = p3 + ((seq!['{'] + "\"keycode\""@ + seq![':'])).len();
    assert(s.subrange(p0, p0 + ((seq!['{'] + "\"method\""@ + seq![':'])).len() + ("\"process_key\""@ + ((seq![','] + "\"params\""@ + seq![':']) + ((seq!['{'] + "\"keycode\""@ + seq![':'])))).len()) == ((seq!['{'] + "\"method\""@ + seq![':'])) + ("\"process_key\""@ + ((seq![','] + "\"params\""@ + seq![':']) + ((seq!['{'] + "\"keycode\""@ + seq![':'])))));
    lemma_region_split(s, p0, (seq!['{'] + "\"method\""@ + seq![':']), "\"process_key\""@ + ((seq![','] + "\"params\""@ + seq![':']) + ((seq!['{'] + "\"keycode\""@ + seq![':']))));
    assert(("\"process_key\""@ + ((seq![','] + "\"params\""@ + seq![':']) + ((seq!['{'] + "\"keycode\""@ + seq![':'])))) =~= ("\"process_key\""@) + ((seq![','] + "\"params\""@ + seq![':']) + ((seq!['{'] + "\"keycode\""@ + seq![':']))));
    assert(s.subrange(p1, p1 + ("\"process_key\""@).len() + ((seq![','] + "\"params\""@ + seq![':']) + ((seq!['{'] + "\"keycode\""@ + seq![':']))).len()) == ("\"process_key\""@) + ((seq![','] + "\"params\""@ + seq![':']) + ((seq!['{'] + "\"keycode\""@ + seq![':']))));
    lemma_region_split(s, p1, "\"process_key\""@, (seq![','] + "\"params\""@ + seq![':']) + ((seq!['{'] + "\"keycode\""@ + seq![':'])));
    assert(((seq![','] + "\"params\""@ + seq![':']) + ((seq!['{'] + "\"keycode\""@ + seq![':']))) =~= ((seq![','] + "\"params\""@ + seq![':'])) + ((seq!['{'] + "\"keycode\""@ + seq![':'])));
    assert(s.subrange(p2, p2 + ((seq![','] + "\"params\""@ + seq![':'])).len() + ((seq!['{'] + "\"keycode\""@ + seq![':'])).len()) == ((seq![','] + "\"params\""@ + seq![':'])) + ((seq!['{'] + "\"keycode\""@ + seq![':'])));
    lemma_region_split(s, p2, (seq![','] + "\"params\""@ + seq![':']), (seq!['{'] + "\"keycode\""@ + seq![':']));
    assert(s.subrange(p0, p1) == ((seq!['{'] + "\"method\""@ + seq![':'])));
    assert(s.subrange(p1, p2) == ("\"process_key\""@));
    assert(s.subrange(p2, p3) == ((seq![','] + "\"params\""@ + seq![':'])));
    assert(s.subrange(p3, p4) == ((seq!['{'] + "\"keycode\""@ + seq![':'])));
    assert(s.subrange(p0, p0 + "\"method\""@.len() + 2) == seq!['{'] + "\"method\""@ + seq![':']);
    lemma_p_obj_first_key(s, p0, "\"method\""@);
    reveal_strlit("process_key");
    reveal_strlit("\"process_key\"");
    assert(forall|k: int| 0 <= k < "process_key"@.len() ==> (#[trigger] "process_key"@[k]) != '"' && "process_key"@[k] != '\\' && ("process_key"@[k] as u32) >= 0x20);
    lemma_ser_str_body_plain("process_key"@);
    assert(ser_string("process_key"@) =~= "\"process_key\""@);
    assert(s.subrange(p1, p1 + ser_string("process_key"@).len()) == ser_string("process_key"@));
    lemma_p_string_ser(s, p1, "process_key"@);
    assert(s.subrange(p2, p2 + "\"params\""@.len() + 2) == seq![','] + "\"params\""@ + seq![':']);
    lemma_p_next_key(s, p2, "\"params\""@);
    assert(s.subrange(p3, p3 + "\"keycode\""@.len() + 2) == seq!['{'] + "\"keycode\""@ + seq![':']);
    lemma_p_obj_first_key(s, p3, "\"keycode\""@);
    reveal_strlit(",\"mask\":");
    assert(s.subrange(o2, o3)[0] == ",\"mask\":"@[0]);
    assert(!is_digit(s[o2]));
    lemma_p_dec_ser(s, o1, keycode as nat, 0xffff_ffff);
    reveal_strlit("\"mask\"");
    reveal_strlit(",\"mask\":");
    assert((",\"mask\":"@) =~= seq![','] + "\"mask\""@ + seq![':']);
    assert(s.subrange(o2, o2 + "\"mask\""@.len() + 2) == seq![','] + "\"mask\""@ + seq![':']);
    lemma_p_next_key(s, o2, "\"mask\""@);
    assert(p_next_key(s, o2, "\"mask\""@) == PRes::<()>::Parsed((), o3));
    reveal_strlit("}}");
    assert(s.subrange(o4, o5)[0] == "}}"@[0]);
    assert(!is_digit(s[o4]));
    lemma_p_dec_ser(s, o3, mask as nat, 0xffff_ffff);
    reveal_strlit("}}");
    assert(s.subrange(o4, o5)[0] == "}}"@[0]);
    assert(s.subrange(o4, o5)[1] == "}}"@[1]);
    assert(s[o4] == '}' && s[o4 + 1] == '}');
    lemma_p_obj_end(s, o4);
    lemma_p_obj_end(s, o4 + 1);
    assert(p_call(s, i) == PRes::Parsed(CallV::ProcessKey { keycode, mask }, i + w.len()));
}

/// One arm of the p_call round trip.
#[verifier::rlimit(100)]
#[verifier::spinoff_prover]
proof fn lemma_p_call_ser_config(s: Seq<char>, i: int, config_id: Seq<char>, option_key: Seq<char>)
    requires
        0 <= i,
        i + ser_call((CallV::ConfigValueInteger { config_id, option_key })).len() <= s.len(),
        s.subrange(i, i + ser_call((CallV::ConfigValueInteger { config_id, option_key })).len()) == ser_call((CallV::ConfigValueInteger { config_id, option_key })),
    ensures
        p_call(s, i) == PRes::Parsed((CallV::ConfigValueInteger { config_id, option_key }), i + ser_call((CallV::ConfigValueInteger { config_id, option_key })).len()),
{
    let w = ser_call((CallV::ConfigValueInteger { config_id, option_key }));
    let o0: int = i;
    assert(w =~= "{\"method\":\"config_value_integer\",\"params\":{\"config_id\":"@ + (ser_string(config_id) + (",\"option_key\":"@ + (ser_string(option_key) + ("}}"@)))));
    assert(s.subrange(o0, o0 + (w).len()) == w);
    let o1: int = o0 + ("{\"method\":\"config_value_integer\",\"params\":{\"config_id\":"@).len();
    let o2: int = o1 + (ser_string(config_id)).len();
    let o3: int = o2 + (",\"option_key\":"@).len();
    let o4: int = o3 + (ser_string(option_key)).len();
    let o5: int = o4 + ("}}"@).len();
    assert(s.subrange(o0, o0 + ("{\"method\":\"config_value_integer\",\"params\":{\"config_id\":"@).len() + (ser_string(config_id) + (",\"option_key\":"@ + (ser_string(option_key) + ("}}"@)))).len()) == ("{\"method\":\"config_value_integer\",\"params\":{\"config_id\":"@) + (ser_string(config_id) + (",\"option_key\":"@ + (ser_string(option_key) + ("}}"@)))));
    lemma_region_split(s, o0, "{\"method\":\"config_value_integer\",\"params\":{\"config_id\":"@, ser_string(config_id) + (",\"option_key\":"@ + (ser_string(option_key) + ("}}"@))));
    assert((ser_string(config_id) + (",\"option_key\":"@ + (ser_string(option_key) + ("}}"@)))) =~= (ser_string(config_id)) + (",\"option_key\":"@ + (ser_string(option_key) + ("}}"@))));
    assert(s.subrange(o1, o1 + (ser_string(config_id)).len() + (",\"option_key\":"@ + (ser_string(option_key) + ("}}"@))).len()) == (ser_string(config_id)) + (",\"option_key\":"@ + (ser_string(option_key) + ("}}"@))));
    lemma_region_split(s, o1, ser_string(config_id), ",\"option_key\":"@ + (ser_string(option_key) + ("}}"@)));
    assert((",\"option_key\":"@ + (ser_string(option_key) + ("}}"@))) =~= (",\"option_key\":"@) + (ser_string(option_key) + ("}}"@)));
    assert(s.subrange(o2, o2 + (",\"option_key\":"@).len() + (ser_string(option_key) + ("}}"@)).len()) == (",\"option_key\":"@) + (ser_string(option_key) + ("}}"@)));
    lemma_region_split(s, o2, ",\"option_key\":"@, ser_string(option_key) + ("}}"@));
    assert((ser_string(option_key) + ("}}"@)) =~= (ser_string(option_key)) + ("}}"@));
    assert(s.subrange(o3, o3 + (ser_string(option_key)).len() + ("}}"@).len()) == (ser_string(option_key)) + ("}}"@));
    lemma_region_split(s, o3, ser_string(option_key), "}}"@);
    assert(s.subrange(o0, o1) == ("{\"method\":\"config_value_integer\",\"params\":{\"config_id\":"@));
    assert(s.subrange(o1, o2) == (ser_string(config_id)));
    assert(s.subrange(o2, o3) == (",\"option_key\":"@));
    assert(s.subrange(o3, o4) == (ser_string(option_key)));
    assert(s.subrange(o4, o5) == ("}}"@));
    let p0: int = o0;
    reveal_strlit("\"method\"");
    reveal_strlit("\"config_value_integer\"");
    reveal_strlit("\"params\"");
    reveal_strlit("\"config_id\"");
    reveal_strlit("{\"method\":\"config_value_integer\",\"params\":{\"config_id\":");
    assert(("{\"method\":\"config_value_integer\",\"params\":{\"config_id\":"@) =~= (seq!['{'] + "\"method\""@ + seq![':']) + ("\"config_value_integer\""@ + ((seq![','] + "\"params\""@ + seq![':']) + ((seq!['{'] + "\"config_id\""@ + seq![':'])))));
    assert(s.subrange(p0, p0 + (("{\"method\":\"config_value_integer\",\"params\":{\"config_id\":"@)).len()) == ("{\"method\":\"config_value_integer\",\"params\":{\"config_id\":"@));
    let p1: int = p0 + ((seq!['{'] + "\"method\""@ + seq![':'])).len();
    let p2: int = p1 + ("\"config_value_integer\""@).len();
    let p3: int = p2 + ((seq![','] + "\"params\""@ + seq![':'])).len();
    let p4: int = p3 + ((seq!['{'] + "\"config_id\""@ + seq![':'])).len();
    assert(s.subrange(p0, p0 + ((seq!['{'] + "\"method\""@ + seq![':'])).len() + ("\"config_value_integer\""@ + ((seq![','] + "\"params\""@ + seq![':']) + ((seq!['{'] + "\"config_id\""@ + seq![':'])))).len()) == ((seq!['{'] + "\"method\""@ + seq![':'])) + ("\"config_value_integer\""@ + ((seq![','] + "\"params\""@ + seq![':']) + ((seq!['{'] + "\"config_id\""@ + seq![':'])))));
    lemma_region_split(s, p0, (seq!['{'] + "\"method\""@ + seq![':']), "\"config_value_integer\""@ + ((seq![','] + "\"params\""@ + seq![':']) + ((seq!['{'] + "\"config_id\""@ + seq![':']))));
    assert(("\"config_value_integer\""@ + ((seq![','] + "\"params\""@ + seq![':']) + ((seq!['{'] + "\"config_id\""@ + seq![':'])))) =~= ("\"config_value_integer\""@) + ((seq![','] + "\"params\""@ + seq![':']) + ((seq!['{'] + "\"config_id\""@ + seq![':']))));
    assert(s.subrange(p1, p1 + ("\"config_value_integer\""@).len() + ((seq![','] + "\"params\""@ + seq![':']) + ((seq!['{'] + "\"config_id\""@ + seq![':']))).len()) == ("\"config_value_integer\""@) + ((seq![','] + "\"params\""@ + seq![':']) + ((seq!['{'] + "\"config_id\""@ + seq![':']))));
    lemma_region_split(s, p1, "\"config_value_integer\""@, (seq![','] + "\"params\""@ + seq![':']) + ((seq!['{'] + "\"config_id\""@ + seq![':'])));
    assert(((seq![','] + "\"params\""@ + seq![':']) + ((seq!['{'] + "\"config_id\""@ + seq![':']))) =~= ((seq![','] + "\"params\""@ + seq![':'])) + ((seq!['{'] + "\"config_id\""@ + seq![':'])));
    assert(s.subrange(p2, p2 + ((seq![','] + "\"params\""@ + seq![':'])).len() + ((seq!['{'] + "\"config_id\""@ + seq![':'])).len()) == ((seq![','] + "\"params\""@ + seq![':'])) + ((seq!['{'] + "\"config_id\""@ + seq![':'])));
    lemma_region_split(s, p2, (seq![','] + "\"params\""@ + seq![':']), (seq!['{'] + "\"config_id\""@ + seq![':']));
    assert(s.subrange(p0, p1) == ((seq!['{'] + "\"method\""@ + seq![':'])));
    assert(s.subrange(p1, p2) == ("\"config_value_integer\""@));
    assert(s.subrange(p2, p3) == ((seq![','] + "\"params\""@ + seq![':'])));
    assert(s.subrange(p3, p4) == ((seq!['{'] + "\"config_id\""@ + seq![':'])));
    assert(s.subrange(p0, p0 + "\"method\""@.len() + 2) == seq!['{'] + "\"method\""@ + seq![':']);
    lemma_p_obj_first_key(s, p0, "\"method\""@);
    reveal_strlit("config_value_integer");
    reveal_strlit("\"config_value_integer\"");
    assert(forall|k: int| 0 <= k < "config_value_integer"@.len() ==> (#[trigger] "config_value_integer"@[k]) != '"' && "config_value_integer"@[k] != '\\' && ("config_value_integer"@[k] as u32) >= 0x20);
    lemma_ser_str_body_plain("config_value_integer"@);
    assert(ser_string("config_value_integer"@) =~= "\"config_value_integer\""@);
    assert(s.subrange(p1, p1 + ser_string("config_value_integer"@).len()) == ser_string("config_value_integer"@));
    lemma_p_string_ser(s, p1, "config_value_integer"@);
    reveal_strlit("process_key");
    assert("config_value_integer"@.len() != "process_key"@.len());
    assert("config_value_integer"@ != "process_key"@);
    assert(s.subrange(p2, p2 + "\"params\""@.len() + 2) == seq![','] + "\"params\""@ + seq![':']);
    lemma_p_next_key(s, p2, "\"params\""@);
    assert(s.subrange(p3, p3 + "\"config_id\""@.len() + 2) == seq!['{'] + "\"config_id\""@ + seq![':']);
    lemma_p_obj_first_key(s, p3, "\"config_id\""@);
    lemma_p_string_ser(s, o1, config_id);
    reveal_strlit("\"option_key\"");
    reveal_strlit(",\"option_key\":");
    assert((",\"option_key\":"@) =~= seq![','] + "\"option_key\""@ + seq![':']);
    assert(s.subrange(o2, o2 + "\"option_key\""@.len() + 2) == seq![','] + "\"option_key\""@ + seq![':']);
    lemma_p_next_key(s, o2, "\"option_key\""@);
    assert(p_next_key(s, o2, "\"option_key\""@) == PRes::<()>::Parsed((), o3));
    lemma_p_string_ser(s, o3, option_key);
    reveal_strlit("}}");
    assert(s.subrange(o4, o5)[0] == "}}"@[0]);
    assert(s.subrange(o4, o5)[1] == "}}"@[1]);
    assert(s[o4] == '}' && s[o4 + 1] == '}');
    lemma_p_obj_end(s, o4);
    lemma_p_obj_end(s, o4 + 1);
    assert(p_call(s, i) == PRes::Parsed(CallV::ConfigValueInteger { config_id, option_key }, i + w.len()));
}

/// One arm of the p_call round trip.
#[verifier::rlimit(100)]
#[verifier::spinoff_prover]
proof fn lemma_p_call_ser_schema(s: Seq<char>, i: int)
    requires
        0 <= i,
        i + ser_call(CallV::SchemaName).len() <= s.len(),
        s.subrange(i, i + ser_call(CallV::SchemaName).len()) == ser_call(CallV::SchemaName),
    ensures
        p_call(s, i) == PRes::Parsed(CallV::SchemaName, i + ser_call(CallV::SchemaName).len()),
{
    let w = ser_call(CallV::SchemaName);
    let o0: int = i;
    let p0: int = o0;
    reveal_strlit("\"method\"");
    reveal_strlit("{\"method\":\"schema_name\"}");
    reveal_strlit("\"schema_name\"");
    assert(("{\"method\":\"schema_name\"}"@) =~= (seq!['{'] + "\"method\""@ + seq![':']) + ("\"schema_name\""@ + (seq!['}'])));
    assert(s.subrange(p0, p0 + (("{\"method\":\"schema_name\"}"@)).len()) == ("{\"method\":\"schema_name\"}"@));
    let p1: int = p0 + ((seq!['{'] + "\"method\""@ + seq![':'])).len();
    let p2: int = p1 + ("\"schema_name\""@).len();
    let p3: int = p2 + (seq!['}']).len();
    assert(s.subrange(p0, p0 + ((seq!['{'] + "\"method\""@ + seq![':'])).len() + ("\"schema_name\""@ + (seq!['}'])).len()) == ((seq!['{'] + "\"method\""@ + seq![':'])) + ("\"schema_name\""@ + (seq!['}'])));
    lemma_region_split(s, p0, (seq!['{'] + "\"method\""@ + seq![':']), "\"schema_name\""@ + (seq!['}']));
    assert(("\"schema_name\""@ + (seq!['}'])) =~= ("\"schema_name\""@) + (seq!['}']));
    assert(s.subrange(p1, p1 + ("\"schema_name\""@).len() + (seq!['}']).len()) == ("\"schema_name\""@) + (seq!['}']));
    lemma_region_split(s, p1, "\"schema_name\""@, seq!['}']);
    assert(s.subrange(p0, p1) == ((seq!['{'] + "\"method\""@ + seq![':'])));
    assert(s.subrange(p1, p2) == ("\"schema_name\""@));
    assert(s.subrange(p2, p3) == (seq!['}']));
    assert(s.subrange(p0, p0 + "\"method\""@.len() + 2) == seq!['{'] + "\"method\""@ + seq![':']);
    lemma_p_obj_first_key(s, p0, "\"method\""@);
    reveal_strlit("schema_name");
    reveal_strlit("\"schema_name\"");
    assert(forall|k: int| 0 <= k < "schema_name"@.len() ==> (#[trigger] "schema_name"@[k]) != '"' && "schema_name"@[k] != '\\' && ("schema_name"@[k] as u32) >= 0x20);
    lemma_ser_str_body_plain("schema_name"@);
    assert(ser_string("schema_name"@) =~= "\"schema_name\""@);
    assert(s.subrange(p1, p1 + ser_string("schema_name"@).len()) == ser_string("schema_name"@));
    lemma_p_string_ser(s, p1, "schema_name"@);
    reveal_strlit("process_key");
    assert("schema_name"@[0] != "process_key"@[0]);
    assert("schema_name"@ != "process_key"@);
    reveal_strlit("config_value_integer");
    assert("schema_name"@.len() != "config_value_integer"@.len());
    assert("schema_name"@ != "config_value_integer"@);
    assert(s.subrange(p2, p3)[0] == '}');
    assert(s[p2] == '}');
    lemma_p_obj_end(s, p2);
    assert(p_call(s, i) == PRes::Parsed(CallV::SchemaName, i + w.len()));
}

/// One arm of the p_call round trip.
#[verifier::rlimit(100)]
#[verifier::spinoff_prover]
proof fn lemma_p_call_ser_clear(s: Seq<char>, i: int)
    requires
        0 <= i,
        i + ser_call(CallV::ClearComposition).len() <= s.len(),
        s.subrange(i, i + ser_call(CallV::ClearComposition).len()) == ser_call(CallV::ClearComposition),
    ensures
        p_call(s, i) == PRes::Parsed(CallV::ClearComposition, i + ser_call(CallV::ClearComposition).len()),
{
    let w = ser_call(CallV::ClearComposition);
    let o0: int = i;
    let p0: int = o0;
    reveal_strlit("\"method\"");
    reveal_strlit("{\"method\":\"clear_composition\"}");
    reveal_strlit("\"clear_composition\"");
    assert(("{\"method\":\"clear_composition\"}"@) =~= (seq!['{'] + "\"method\""@ + seq![':']) + ("\"clear_composition\""@ + (seq!['}'])));
    assert(s.subrange(p0, p0 + (("{\"method\":\"clear_composition\"}"@)).len()) == ("{\"method\":\"clear_composition\"}"@));
    let p1: int = p0 + ((seq!['{'] + "\"method\""@ + seq![':'])).len();
    let p2: int = p1 + ("\"clear_composition\""@).len();
    let p3: int = p2 + (seq!['}']).len();
    assert(s.subrange(p0, p0 + ((seq!['{'] + "\"method\""@ + seq![':'])).len() + ("\"clear_composition\""@ + (seq!['}'])).len()) == ((seq!['{'] + "\"method\""@ + seq![':'])) + ("\"clear_composition\""@ + (seq!['}'])));
    lemma_region_split(s, p0, (seq!['{'] + "\"method\""@ + seq![':']), "\"clear_composition\""@ + (seq!['}']));
    assert(("\"clear_composition\""@ + (seq!['}'])) =~= ("\"clear_composition\""@) + (seq!['}']));
    assert(s.subrange(p1, p1 + ("\"clear_composition\""@).len() + (seq!['}']).len()) == ("\"clear_composition\""@) + (seq!['}']));
    lemma_region_split(s, p1, "\"clear_composition\""@, seq!['}']);
    assert(s.subrange(p0, p1) == ((seq!['{'] + "\"method\""@ + seq![':'])));
    assert(s.subrange(p1, p2) == ("\"clear_composition\""@));
    assert(s.subrange(p2, p3) == (seq!['}']));
    assert(s.subrange(p0, p0 + "\"method\""@.len() + 2) == seq!['{'] + "\"method\""@ + seq![':']);
    lemma_p_obj_first_key(s, p0, "\"method\""@);
    reveal_strlit("clear_composition");
    reveal_strlit("\"clear_composition\"");
    assert(forall|k: int| 0 <= k < "clear_composition"@.len() ==> (#[trigger] "clear_composition"@[k]) != '"' && "clear_composition"@[k] != '\\' && ("clear_composition"@[k] as u32) >= 0x20);
    lemma_ser_str_body_plain("clear_composition"@);
    assert(ser_string("clear_composition"@) =~= "\"clear_composition\""@);
    assert(s.subrange(p1, p1 + ser_string("clear_composition"@).len()) == ser_string("clear_composition"@));
    lemma_p_string_ser(s, p1, "clear_composition"@);
    reveal_strlit("process_key");
    assert("clear_composition"@.len() != "process_key"@.len());
    assert("clear_composition"@ != "process_key"@);
    reveal_strlit("config_value_integer");
    assert("clear_composition"@.len() != "config_value_integer"@.len());
    assert("clear_composition"@ != "config_value_integer"@);
    reveal_strlit("schema_name");
    assert("clear_composition"@.len() != "schema_name"@.len());
    assert("clear_composition"@ != "schema_name"@);
    assert(s.subrange(p2, p3)[0] == '}');
    assert(s[p2] == '}');
    lemma_p_obj_end(s, p2);
    assert(p_call(s, i) == PRes::Parsed(CallV::ClearComposition, i + w.len()));
}

/// One arm of the p_call round trip.
#[verifier::rlimit(100)]
#[verifier::spinoff_prover]
proof fn lemma_p_call_ser_stopc(s: Seq<char>, i: int)
    requires
        0 <= i,
        i + ser_call(CallV::StopClient).len() <= s.len(),
        s.subrange(i, i + ser_call(CallV::StopClient).len()) == ser_call(CallV::StopClient),
    ensures
        p_call(s, i) == PRes::Parsed(CallV::StopClient, i + ser_call(CallV::StopClient).len()),
{
    let w = ser_call(CallV::StopClient);
    let o0: int = i;
    let p0: int = o0;
    reveal_strlit("\"method\"");
    reveal_strlit("{\"method\":\"stop_client\"}");
    reveal_strlit("\"stop_client\"");
    assert(("{\"method\":\"stop_client\"}"@) =~= (seq!['{'] + "\"method\""@ + seq![':']) + ("\"stop_client\""@ + (seq!['}'])));
    assert(s.subrange(p0, p0 + (("{\"method\":\"stop_client\"}"@)).len()) == ("{\"method\":\"stop_client\"}"@));
    let p1: int = p0 + ((seq!['{'] + "\"method\""@ + seq![':'])).len();
    let p2: int = p1 + ("\"stop_client\""@).len();
    let p3: int = p2 + (seq!['}']).len();
    assert(s.subrange(p0, p0 + ((seq!['{'] + "\"method\""@ + seq![':'])).len() + ("\"stop_client\""@ + (seq!['}'])).len()) == ((seq!['{'] + "\"method\""@ + seq![':'])) + ("\"stop_client\""@ + (seq!['}'])));
    lemma_region_split(s, p0, (seq!['{'] + "\"method\""@ + seq![':']), "\"stop_client\""@ + (seq!['}']));
    assert(("\"stop_client\""@ + (seq!['}'])) =~= ("\"stop_client\""@) + (seq!['}']));
    assert(s.subrange(p1, p1 + ("\"stop_client\""@).len() + (seq!['}']).len()) == ("\"stop_client\""@) + (seq!['}']));
    lemma_region_split(s, p1, "\"stop_client\""@, seq!['}']);
    assert(s.subrange(p0, p1) == ((seq!['{'] + "\"method\""@ + seq![':'])));
    assert(s.subrange(p1, p2) == ("\"stop_client\""@));
    assert(s.subrange(p2, p3) == (seq!['}']));
    assert(s.subrange(p0, p0 + "\"method\""@.len() + 2) == seq!['{'] + "\"method\""@ + seq![':']);
    lemma_p_obj_first_key(s, p0, "\"method\""@);
    reveal_strlit("stop_client");
    reveal_strlit("\"stop_client\"");
    assert(forall|k: int| 0 <= k < "stop_client"@.len() ==> (#[trigger] "stop_client"@[k]) != '"' && "stop_client"@[k] != '\\' && ("stop_client"@[k] as u32) >= 0x20);
    lemma_ser_str_body_plain("stop_client"@);
    assert(ser_string("stop_client"@) =~= "\"stop_client\""@);
    assert(s.subrange(p1, p1 + ser_string("stop_client"@).len()) == ser_string("stop_client"@));
    lemma_p_string_ser(s, p1, "stop_client"@);
    reveal_strlit("process_key");
    assert("stop_client"@[0] != "process_key"@[0]);
    assert("stop_client"@ != "process_key"@);
    reveal_strlit("config_value_integer");
    assert("stop_client"@.len() != "config_value_integer"@.len());
    assert("stop_client"@ != "config_value_integer"@);
    reveal_strlit("schema_name");
    assert("stop_client"@[1] != "schema_name"@[1]);
    assert("stop_client"@ != "schema_name"@);
    reveal_strlit("clear_composition");
    assert("stop_client"@.len() != "clear_composition"@.len());
    assert("stop_client"@ != "clear_composition"@);
    assert(s.subrange(p2, p3)[0] == '}');
    assert(s[p2] == '}');
    lemma_p_obj_end(s, p2);
    assert(p_call(s, i) == PRes::Parsed(CallV::StopClient, i + w.len()));
}

/// One arm of the p_call round trip.
#[verifier::rlimit(100)]
#[verifier::spinoff_prover]
proof fn lemma_p_call_ser_stops(s: Seq<char>, i: int)
    requires
        0 <= i,
        i + ser_call(CallV::StopServer).len() <= s.len(),
        s.subrange(i, i + ser_call(CallV::StopServer).len()) == ser_call(CallV::StopServer),
    ensures
        p_call(s, i) == PRes::Parsed(CallV::StopServer, i + ser_call(CallV::StopServer).len()),
{
    let w = ser_call(CallV::StopServer);
    let o0: int = i;
    let p0: int = o0;
    reveal_strlit("\"method\"");
    reveal_strlit("{\"method\":\"stop_server\"}");
    reveal_strlit("\"stop_server\"");
    assert(("{\"method\":\"stop_server\"}"@) =~= (seq!['{'] + "\"method\""@ + seq![':']) + ("\"stop_server\""@ + (seq!['}'])));
    assert(s.subrange(p0, p0 + (("{\"method\":\"stop_server\"}"@)).len()) == ("{\"method\":\"stop_server\"}"@));
    let p1: int = p0 + ((seq!['{'] + "\"method\""@ + seq![':'])).len();
    let p2: int = p1 + ("\"stop_server\""@).len();
    let p3: int = p2 + (seq!['}']).len();
    assert(s.subrange(p0, p0 + ((seq!['{'] + "\"method\""@ + seq![':'])).len() + ("\"stop_server\""@ + (seq!['}'])).len()) == ((seq!['{'] + "\"method\""@ + seq![':'])) + ("\"stop_server\""@ + (seq!['}'])));
    lemma_region_split(s, p0, (seq!['{'] + "\"method\""@ + seq![':']), "\"stop_server\""@ + (seq!['}']));
    assert(("\"stop_server\""@ + (seq!['}'])) =~= ("\"stop_server\""@) + (seq!['}']));
    assert(s.subrange(p1, p1 + ("\"stop_server\""@).len() + (seq!['}']).len()) == ("\"stop_server\""@) + (seq!['}']));
    lemma_region_split(s, p1, "\"stop_server\""@, seq!['}']);
    assert(s.subrange(p0, p1) == ((seq!['{'] + "\"method\""@ + seq![':'])));
    assert(s.subrange(p1, p2) == ("\"stop_server\""@));
    assert(s.subrange(p2, p3) == (seq!['}']));
    assert(s.subrange(p0, p0 + "\"method\""@.len() + 2) == seq!['{'] + "\"method\""@ + seq![':']);
    lemma_p_obj_first_key(s, p0, "\"method\""@);
    reveal_strlit("stop_server");
    reveal_strlit("\"stop_server\"");
    assert(forall|k: int| 0 <= k < "stop_server"@.len() ==> (#[trigger] "stop_server"@[k]) != '"' && "stop_server"@[k] != '\\' && ("stop_server"@[k] as u32) >= 0x20);
    lemma_ser_str_body_plain("stop_server"@);
    assert(ser_string("stop_server"@) =~= "\"stop_server\""@);
    assert(s.subrange(p1, p1 + ser_string("stop_server"@).len()) == ser_string("stop_server"@));
    lemma_p_string_ser(s, p1, "stop_server"@);
    reveal_strlit("process_key");
    assert("stop_server"@[0] != "process_key"@[0]);
    assert("stop_server"@ != "process_key"@);
    reveal_strlit("config_value_integer");
    assert("stop_server"@.len() != "config_value_integer"@.len());
    assert("stop_server"@ != "config_value_integer"@);
    reveal_strlit("schema_name");
    assert("stop_server"@[1] != "schema_name"@[1]);
    assert("stop_server"@ != "schema_name"@);
    reveal_strlit("clear_composition");
    assert("stop_server"@.len() != "clear_composition"@.len());
    assert("stop_server"@ != "clear_composition"@);
    reveal_strlit("stop_client");
    assert("stop_server"@[5] != "stop_client"@[5]);
    assert("stop_server"@ != "stop_client"@);
    assert(s.subrange(p2, p3)[0] == '}');
    assert(s[p2] == '}');
    lemma_p_obj_end(s, p2);
    assert(p_call(s, i) == PRes::Parsed(CallV::StopServer, i + w.len()));
}

/// A serialized call parses back to its value.
pub proof fn lemma_p_call_ser(s: Seq<char>, i: int, c: CallV)
    requires
        0 <= i,
        i + ser_call(c).len() <= s.len(),
        s.subrange(i, i + ser_call(c).len()) == ser_call(c),
    ensures
        p_call(s, i) == PRes::Parsed(c, i + ser_call(c).len()),
{
    match c {
        CallV::ProcessKey { keycode, mask } => lemma_p_call_ser_key(s, i, keycode, mask),
        CallV::ConfigValueInteger { config_id, option_key } => lemma_p_call_ser_config(
            s,
            i,
            config_id,
            option_key,
        ),
        CallV::SchemaName => lemma_p_call_ser_schema(s, i),
        CallV::ClearComposition => lemma_p_call_ser_clear(s, i),
        CallV::StopClient => lemma_p_call_ser_stopc(s, i),
        CallV::StopServer => lemma_p_call_ser_stops(s, i),
    }
}

/// A serialized request parses back to its value.
#[verifier::rlimit(100)]
#[verifier::spinoff_prover]
pub proof fn lemma_p_request_ser(s: Seq<char>, i: int, r: RequestV)
    requires
        0 <= i,
        i + ser_request(r).len() <= s.len(),
        s.subrange(i, i + ser_request(r).len()) == ser_request(r),
    ensures
        p_request(s, i) == PRes::Parsed(r, i + ser_request(r).len()),
{
    let w = ser_request(r);
    let o0: int = i;
    assert(w =~= "{\"id\":"@ + (ser_string(r.id) + (",\"call\":"@ + (ser_call(r.call) + ("}"@)))));
    assert(s.subrange(o0, o0 + (w).len()) == w);
    let o1: int = o0 + ("{\"id\":"@).len();
    let o2: int = o1 + (ser_string(r.id)).len();
    let o3: int = o2 + (",\"call\":"@).len();
    let o4: int = o3 + (ser_call(r.call)).len();
    let o5: int = o4 + ("}"@).len();
    assert(s.subrange(o0, o0 + ("{\"id\":"@).len() + (ser_string(r.id) + (",\"call\":"@ + (ser_call(r.call) + ("}"@)))).len()) == ("{\"id\":"@) + (ser_string(r.id) + (",\"call\":"@ + (ser_call(r.call) + ("}"@)))));
    lemma_region_split(s, o0, "{\"id\":"@, ser_string(r.id) + (",\"call\":"@ + (ser_call(r.call) + ("}"@))));
    assert((ser_string(r.id) + (",\"call\":"@ + (ser_call(r.call) + ("}"@)))) =~= (ser_string(r.id)) + (",\"call\":"@ + (ser_call(r.call) + ("}"@))));
    assert(s.subrange(o1, o1 + (ser_string(r.id)).len() + (",\"call\":"@ + (ser_call(r.call) + ("}"@))).len()) == (ser_string(r.id)) + (",\"call\":"@ + (ser_call(r.call) + ("}"@))));
    lemma_region_split(s, o1, ser_string(r.id), ",\"call\":"@ + (ser_call(r.call) + ("}"@)));
    assert((",\"call\":"@ + (ser_call(r.call) + ("}"@))) =~= (",\"call\":"@) + (ser_call(r.call) + ("}"@)));
    assert(s.subrange(o2, o2 + (",\"call\":"@).len() + (ser_call(r.call) + ("}"@)).len()) == (",\"call\":"@) + (ser_call(r.call) + ("}"@)));
    lemma_region_split(s, o2, ",\"call\":"@, ser_call(r.call) + ("}"@));
    assert((ser_call(r.call) + ("}"@)) =~= (ser_call(r.call)) + ("}"@));
    assert(s.subrange(o3, o3 + (ser_call(r.call)).len() + ("}"@).len()) == (ser_call(r.call)) + ("}"@));
    lemma_region_split(s, o3, ser_call(r.call), "}"@);
    assert(s.subrange(o0, o1) == ("{\"id\":"@));
    assert(s.subrange(o1, o2) == (ser_string(r.id)));
    assert(s.subrange(o2, o3) == (",\"call\":"@));
    assert(s.subrange(o3, o4) == (ser_call(r.call)));
    assert(s.subrange(o4, o5) == ("}"@));
    reveal_strlit("\"id\"");
    reveal_strlit("{\"id\":");
    assert(("{\"id\":"@) =~= seq!['{'] + "\"id\""@ + seq![':']);
    assert(s.subrange(o0, o0 + "\"id\""@.len() + 2) == seq!['{'] + "\"id\""@ + seq![':']);
    lemma_p_obj_first_key(s, o0, "\"id\""@);
    assert(p_obj_first_key(s, o0, "\"id\""@) == PRes::<()>::Parsed((), o1));
    lemma_p_string_ser(s, o1, r.id);
    reveal_strlit("\"call\"");
    reveal_strlit(",\"call\":");
    assert((",\"call\":"@) =~= seq![','] + "\"call\""@ + seq![':']);
    assert(s.subrange(o2, o2 + "\"call\""@.len() + 2) == seq![','] + "\"call\""@ + seq![':']);
    lemma_p_next_key(s, o2, "\"call\""@);
    assert(p_next_key(s, o2, "\"call\""@) == PRes::<()>::Parsed((), o3));
    lemma_p_call_ser(s, o3, r.call);
    reveal_strlit("}");
    assert(s.subrange(o4, o5)[0] == "}"@[0]);
    assert(s[o4] == '}');
    lemma_p_obj_end(s, o4);
    assert(p_request(s, i) == PRes::Parsed(RequestV { id: r.id, call: r.call }, i + w.len()));
    assert(p_request(s, i) == PRes::Parsed(r, i + w.len()));
}

/// A serialized reply parses back to its value.
#[verifier::rlimit(100)]
#[verifier::spinoff_prover]
pub proof fn lemma_p_reply_ser(s: Seq<char>, i: int, r: ReplyV)
    requires
        0 <= i,
        i + ser_reply(r).len() <= s.len(),
        s.subrange(i, i + ser_reply(r).len()) == ser_reply(r),
    ensures
        p_reply(s, i) == PRes::Parsed(r, i + ser_reply(r).len()),
{
    let w = ser_reply(r);
    let o0: int = i;
    assert(w =~= "{\"id\":"@ + ((match r.id {
        Some(t) => ser_string(t),
        None => "null"@,
    }) + (",\"outcome\":"@ + (ser_outcome(r.outcome) + ("}"@)))));
    assert(s.subrange(o0, o0 + (w).len()) == w);
    let o1: int = o0 + ("{\"id\":"@).len();
    let o2: int = o1 + ((match r.id {
        Some(t) => ser_string(t),
        None => "null"@,
    })).len();
    let o3: int = o2 + (",\"outcome\":"@).len();
    let o4: int = o3 + (ser_outcome(r.outcome)).len();
    let o5: int = o4 + ("}"@).len();
    assert(s.subrange(o0, o0 + ("{\"id\":"@).len() + ((match r.id {
        Some(t) => ser_string(t),
        None => "null"@,
    }) + (",\"outcome\":"@ + (ser_outcome(r.outcome) + ("}"@)))).len()) == ("{\"id\":"@) + ((match r.id {
        Some(t) => ser_string(t),
        None => "null"@,
    }) + (",\"outcome\":"@ + (ser_outcome(r.outcome) + ("}"@)))));
    lemma_region_split(s, o0, "{\"id\":"@, (match r.id {
        Some(t) => ser_string(t),
        None => "null"@,
    }) + (",\"outcome\":"@ + (ser_outcome(r.outcome) + ("}"@))));
    assert(((match r.id {
        Some(t) => ser_string(t),
        None => "null"@,
    }) + (",\"outcome\":"@ + (ser_outcome(r.outcome) + ("}"@)))) =~= ((match r.id {
        Some(t) => ser_string(t),
        None => "null"@,
    })) + (",\"outcome\":"@ + (ser_outcome(r.outcome) + ("}"@))));
    assert(s.subrange(o1, o1 + ((match r.id {
        Some(t) => ser_string(t),
        None => "null"@,
    })).len() + (",\"outcome\":"@ + (ser_outcome(r.outcome) + ("}"@))).len()) == ((match r.id {
        Some(t) => ser_string(t),
        None => "null"@,
    })) + (",\"outcome\":"@ + (ser_outcome(r.outcome) + ("}"@))));
    lemma_region_split(s, o1, (match r.id {
        Some(t) => ser_string(t),
        None => "null"@,
    }), ",\"outcome\":"@ + (ser_outcome(r.outcome) + ("}"@)));
    assert((",\"outcome\":"@ + (ser_outcome(r.outcome) + ("}"@))) =~= (",\"outcome\":"@) + (ser_outcome(r.outcome) + ("}"@)));
    assert(s.subrange(o2, o2 + (",\"outcome\":"@).len() + (ser_outcome(r.outcome) + ("}"@)).len()) == (",\"outcome\":"@) + (ser_outcome(r.outcome) + ("}"@)));
    lemma_region_split(s, o2, ",\"outcome\":"@, ser_outcome(r.outcome) + ("}"@));
    assert((ser_outcome(r.outcome) + ("}"@)) =~= (ser_outcome(r.outcome)) + ("}"@));
    assert(s.subrange(o3, o3 + (ser_outcome(r.outcome)).len() + ("}"@).len()) == (ser_outcome(r.outcome)) + ("}"@));
    lemma_region_split(s, o3, ser_outcome(r.outcome), "}"@);
    assert(s.subrange(o0, o1) == ("{\"id\":"@));
    assert(s.subrange(o1, o2) == ((match r.id {
        Some(t) => ser_string(t),
        None => "null"@,
    })));
    assert(s.subrange(o2, o3) == (",\"outcome\":"@));
    assert(s.subrange(o3, o4) == (ser_outcome(r.outcome)));
    assert(s.subrange(o4, o5) == ("}"@));
    reveal_strlit("\"id\"");
    reveal_strlit("{\"id\":");
    assert(("{\"id\":"@) =~= seq!['{'] + "\"id\""@ + seq![':']);
    assert(s.subrange(o0, o0 + "\"id\""@.len() + 2) == seq!['{'] + "\"id\""@ + seq![':']);
    lemma_p_obj_first_key(s, o0, "\"id\""@);
    assert(p_obj_first_key(s, o0, "\"id\""@) == PRes::<()>::Parsed((), o1));
    match r.id {
        Some(t) => {
            lemma_p_null_or_string_some(s, o1, t);
        },
        None => {
            reveal_strlit("null");
            assert(("null"@).len() == 4);
            assert(s.subrange(o1, o1 + 4) == "null"@);
            lemma_p_null_or_string_none(s, o1);
        },
    }
    reveal_strlit("\"outcome\"");
    reveal_strlit(",\"outcome\":");
    assert((",\"outcome\":"@) =~= seq![','] + "\"outcome\""@ + seq![':']);
    assert(s.subrange(o2, o2 + "\"outcome\""@.len() + 2) == seq![','] + "\"outcome\""@ + seq![':']);
    lemma_p_next_key(s, o2, "\"outcome\""@);
    assert(p_next_key(s, o2, "\"outcome\""@) == PRes::<()>::Parsed((), o3));
    lemma_p_outcome_ser(s, o3, r.outcome);
    reveal_strlit("}");
    assert(s.subrange(o4, o5)[0] == "}"@[0]);
    assert(s[o4] == '}');
    lemma_p_obj_end(s, o4);
    assert(p_reply(s, i) == PRes::Parsed(ReplyV { id: r.id, outcome: r.outcome }, i + w.len()));
    assert(p_reply(s, i) == PRes::Parsed(r, i + w.len()));
}


/// Round trip: parsing the canonical text of a request yields the request,
/// wherever the text stands at the head of a larger buffer.
pub proof fn lemma_request_round_trip(r: RequestV, rest: Seq<char>)
    ensures
        p_request(ser_request(r) + rest, 0) == PRes::Parsed(r, ser_request(r).len() as int),
{
    let s = ser_request(r) + rest;
    assert(s.subrange(0, ser_request(r).len() as int) =~= ser_request(r));
    lemma_p_request_ser(s, 0, r);
}

/// Round trip: parsing the canonical text of a reply yields the reply,
/// wherever the text stands at the head of a larger buffer.
pub proof fn lemma_reply_round_trip(r: ReplyV, rest: Seq<char>)
    ensures
        p_reply(ser_reply(r) + rest, 0) == PRes::Parsed(r, ser_reply(r).len() as int),
{
    let s = ser_reply(r) + rest;
    assert(s.subrange(0, ser_reply(r).len() as int) =~= ser_reply(r));
    lemma_p_reply_ser(s, 0, r);
}

/// Serialization is injective on requests.
pub proof fn lemma_ser_request_injective(a: RequestV, b: RequestV)
    requires
        ser_request(a) == ser_request(b),
    ensures
        a == b,
{
    lemma_request_round_trip(a, Seq::empty());
    lemma_request_round_trip(b, Seq::empty());
}

/// Serialization is injective on replies.
pub proof fn lemma_ser_reply_injective(a: ReplyV, b: ReplyV)
    requires
        ser_reply(a) == ser_reply(b),
    ensures
        a == b,
{
    lemma_reply_round_trip(a, Seq::empty());
    lemma_reply_round_trip(b, Seq::empty());
}

} // verus!
