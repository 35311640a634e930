//! The executable parser: computes exactly what `json_model`'s parse
//! functions say, token by token.
use vstd::prelude::*;

use crate::json_model::{
    is_digit, is_ws, p_bool, p_char, p_dec, p_dec_rec, p_i64, p_lit, p_next_key, p_null_or_string,
    p_obj_end, p_obj_first_key, p_string, p_str_body, skip_ws, PRes,
};
use crate::text::string_from_chars;
use vstd::string::StrSliceExecFns;

verus! {

/// Why a parse step did not produce a value.
#[derive(Debug, Clone, Copy, PartialEq, Eq, Structural)]
pub enum JErr {
    /// The text ended in the middle of the value; more may follow.
    Incomplete,
    /// The text cannot begin the expected value.
    Fail,
}

/// The index just past the whitespace at `i`.
fn skip_ws_exec(z: &Vec<char>, i: usize) -> (j: usize)
    requires
        i <= z@.len(),
    ensures
        i <= j <= z@.len(),
        j as int == skip_ws(z@, i as int),
{
    let mut j = i;
    while j < z.len() && (z[j] == ' ' || z[j] == '\t' || z[j] == '\n' || z[j] == '\r')
        invariant
            i <= j <= z@.len(),
            skip_ws(z@, i as int) == skip_ws(z@, j as int),
        decreases z@.len() - j,
    {
        proof {
            assert(is_ws(z@[j as int]));
            assert(skip_ws(z@, j as int) == skip_ws(z@, j + 1 as int));
        }
        j = j + 1;
    }
    proof {
        if j < z@.len() {
            assert(!is_ws(z@[j as int]));
        }
        assert(skip_ws(z@, j as int) == j as int);
    }
    j
}

/// One expected char at `i`.
fn p_char_exec(z: &Vec<char>, i: usize, c: char) -> (r: Result<usize, JErr>)
    ensures
        r matches Ok(j) ==> (p_char(z@, i as int, c) == PRes::<()>::Parsed((), j as int) && j == i
            + 1 && j <= z@.len()),
        r == Err::<usize, JErr>(JErr::Incomplete) ==> p_char(z@, i as int, c) is Incomplete,
        r == Err::<usize, JErr>(JErr::Fail) ==> p_char(z@, i as int, c) is Fail,
{
    if i >= z.len() {
        Err(JErr::Incomplete)
    } else if z[i] == c {
        Ok(i + 1)
    } else {
        Err(JErr::Fail)
    }
}

/// An expected literal starting at `i`.
fn p_lit_exec(z: &Vec<char>, i: usize, lit: &str) -> (r: Result<usize, JErr>)
    requires
        i <= z@.len(),
    ensures
        r matches Ok(j) ==> (p_lit(z@, i as int, lit@) == PRes::<()>::Parsed((), j as int) && i
            <= j <= z@.len()),
        r == Err::<usize, JErr>(JErr::Incomplete) ==> p_lit(z@, i as int, lit@) is Incomplete,
        r == Err::<usize, JErr>(JErr::Fail) ==> p_lit(z@, i as int, lit@) is Fail,
{
    let n = lit.unicode_len();
    let mut k: usize = 0;
    let mut j = i;
    proof {
        assert(lit@.skip(0) =~= lit@);
    }
    loop
        invariant
            n == lit@.len(),
            k <= n,
            j == i + k,
            j <= z@.len(),
            p_lit(z@, i as int, lit@) == p_lit(z@, j as int, lit@.skip(k as int)),
        decreases n - k,
    {
        if k == n {
            proof {
                assert(lit@.skip(k as int).len() == 0);
                assert(p_lit(z@, j as int, lit@.skip(k as int)) == PRes::<()>::Parsed(
                    (),
                    j as int,
                ));
            }
            return Ok(j);
        }
        if j >= z.len() {
            proof {
                assert(lit@.skip(k as int).len() > 0);
            }
            return Err(JErr::Incomplete);
        }
        let c = lit.get_char(k);
        if z[j] == c {
            proof {
                assert(lit@.skip(k as int)[0] == lit@[k as int]);
                assert(lit@.skip(k as int).drop_first() =~= lit@.skip(k + 1));
            }
            j = j + 1;
            k = k + 1;
        } else {
            proof {
                assert(lit@.skip(k as int)[0] == lit@[k as int]);
            }
            return Err(JErr::Fail);
        }
    }
}

/// `{`, the first member's key, and its `:`.
fn p_obj_first_key_exec(z: &Vec<char>, i: usize, key: &str) -> (r: Result<usize, JErr>)
    requires
        i <= z@.len(),
    ensures
        r matches Ok(j) ==> (p_obj_first_key(z@, i as int, key@) == PRes::<()>::Parsed(
            (),
            j as int,
        ) && j <= z@.len()),
        r == Err::<usize, JErr>(JErr::Incomplete) ==> p_obj_first_key(z@, i as int, key@)
            is Incomplete,
        r == Err::<usize, JErr>(JErr::Fail) ==> p_obj_first_key(z@, i as int, key@) is Fail,
{
    let j0 = skip_ws_exec(z, i);
    match p_char_exec(z, j0, '{') {
        Ok(j1) => {
            let j2 = skip_ws_exec(z, j1);
            match p_lit_exec(z, j2, key) {
                Ok(j3) => {
                    let j4 = skip_ws_exec(z, j3);
                    match p_char_exec(z, j4, ':') {
                        Ok(j5) => Ok(j5),
                        Err(e) => Err(e),
                    }
                },
                Err(e) => Err(e),
            }
        },
        Err(e) => Err(e),
    }
}

/// `,`, the next member's key, and its `:`.
fn p_next_key_exec(z: &Vec<char>, i: usize, key: &str) -> (r: Result<usize, JErr>)
    requires
        i <= z@.len(),
    ensures
        r matches Ok(j) ==> (p_next_key(z@, i as int, key@) == PRes::<()>::Parsed((), j as int)
            && j <= z@.len()),
        r == Err::<usize, JErr>(JErr::Incomplete) ==> p_next_key(z@, i as int, key@)
            is Incomplete,
        r == Err::<usize, JErr>(JErr::Fail) ==> p_next_key(z@, i as int, key@) is Fail,
{
    let j0 = skip_ws_exec(z, i);
    match p_char_exec(z, j0, ',') {
        Ok(j1) => {
            let j2 = skip_ws_exec(z, j1);
            match p_lit_exec(z, j2, key) {
                Ok(j3) => {
                    let j4 = skip_ws_exec(z, j3);
                    match p_char_exec(z, j4, ':') {
                        Ok(j5) => Ok(j5),
                        Err(e) => Err(e),
                    }
                },
                Err(e) => Err(e),
            }
        },
        Err(e) => Err(e),
    }
}

/// The closing `}` of an object.
fn p_obj_end_exec(z: &Vec<char>, i: usize) -> (r: Result<usize, JErr>)
    requires
        i <= z@.len(),
    ensures
        r matches Ok(j) ==> (p_obj_end(z@, i as int) == PRes::<()>::Parsed((), j as int) && j
            <= z@.len()),
        r == Err::<usize, JErr>(JErr::Incomplete) ==> p_obj_end(z@, i as int) is Incomplete,
        r == Err::<usize, JErr>(JErr::Fail) ==> p_obj_end(z@, i as int) is Fail,
{
    let j0 = skip_ws_exec(z, i);
    p_char_exec(z, j0, '}')
}

/// The value of one hex digit char, if it is one.
fn hex_digit_val(c: char) -> (r: Option<u32>)
    ensures
        r matches Some(d) ==> (crate::json_model::hexv(c) == d as int && d < 16),
        r is None ==> crate::json_model::hexv(c) < 0,
{
    if '0' <= c && c <= '9' {
        Some((c as u32) - 0x30)
    } else if 'a' <= c && c <= 'f' {
        Some((c as u32) - 0x57)
    } else if 'A' <= c && c <= 'F' {
        Some((c as u32) - 0x37)
    } else {
        None
    }
}

/// The body of a string token after the opening quote.
fn p_str_body_exec(z: &Vec<char>, i: usize) -> (r: Result<(Vec<char>, usize), JErr>)
    ensures
        r matches Ok((v, j)) ==> (p_str_body(z@, i as int) == PRes::Parsed(v@, j as int) && i < j
            <= z@.len()),
        r == Err::<(Vec<char>, usize), JErr>(JErr::Incomplete) ==> p_str_body(z@, i as int)
            is Incomplete,
        r == Err::<(Vec<char>, usize), JErr>(JErr::Fail) ==> p_str_body(z@, i as int) is Fail,
    decreases z@.len() - i,
{
    if i >= z.len() {
        return Err(JErr::Incomplete);
    }
    let c0 = z[i];
    if c0 == '"' {
        let v: Vec<char> = Vec::new();
        proof {
            assert(v@ =~= Seq::<char>::empty());
        }
        return Ok((v, i + 1));
    }
    if c0 == '\\' {
        if i + 1 >= z.len() {
            return Err(JErr::Incomplete);
        }
        let e = z[i + 1];
        if e == '"' || e == '\\' || e == '/' {
            match p_str_body_exec(z, i + 2) {
                Ok((mut t, k)) => {
                    let mut v: Vec<char> = Vec::new();
                    v.push(e);
                    let ghost tv = t@;
                    v.append(&mut t);
                    proof {
                        assert(v@ =~= seq![e] + tv);
                    }
                    return Ok((v, k));
                },
                Err(e2) => {
                    return Err(e2);
                },
            }
        } else if e == 'n' || e == 't' || e == 'r' || e == 'b' || e == 'f' {
            let c = if e == 'n' {
                '\n'
            } else if e == 't' {
                '\t'
            } else if e == 'r' {
                '\r'
            } else if e == 'b' {
                8u8 as char
            } else {
                12u8 as char
            };
            match p_str_body_exec(z, i + 2) {
                Ok((mut t, k)) => {
                    let mut v: Vec<char> = Vec::new();
                    v.push(c);
                    let ghost tv = t@;
                    v.append(&mut t);
                    proof {
                        assert(v@ =~= seq![c] + tv);
                    }
                    return Ok((v, k));
                },
                Err(e2) => {
                    return Err(e2);
                },
            }
        } else if e == 'u' {
            if i + 2 >= z.len() {
                return Err(JErr::Incomplete);
            }
            let d0 = match hex_digit_val(z[i + 2]) {
                Some(d) => d,
                None => {
                    return Err(JErr::Fail);
                },
            };
            if i + 3 >= z.len() {
                return Err(JErr::Incomplete);
            }
            let d1 = match hex_digit_val(z[i + 3]) {
                Some(d) => d,
                None => {
                    return Err(JErr::Fail);
                },
            };
            if i + 4 >= z.len() {
                return Err(JErr::Incomplete);
            }
            let d2 = match hex_digit_val(z[i + 4]) {
                Some(d) => d,
                None => {
                    return Err(JErr::Fail);
                },
            };
            if i + 5 >= z.len() {
                return Err(JErr::Incomplete);
            }
            let d3 = match hex_digit_val(z[i + 5]) {
                Some(d) => d,
                None => {
                    return Err(JErr::Fail);
                },
            };
            let v: u32 = d0 * 4096 + d1 * 256 + d2 * 16 + d3;
            if 0xdc00 <= v && v <= 0xdfff {
                return Err(JErr::Fail);
            }
            if 0xd800 <= v && v <= 0xdbff {
                if i + 6 >= z.len() {
                    return Err(JErr::Incomplete);
                }
                if z[i + 6] != '\\' {
                    return Err(JErr::Fail);
                }
                if i + 7 >= z.len() {
                    return Err(JErr::Incomplete);
                }
                if z[i + 7] != 'u' {
                    return Err(JErr::Fail);
                }
                if i + 8 >= z.len() {
                    return Err(JErr::Incomplete);
                }
                let e0 = match hex_digit_val(z[i + 8]) {
                    Some(d) => d,
                    None => {
                        return Err(JErr::Fail);
                    },
                };
                if i + 9 >= z.len() {
                    return Err(JErr::Incomplete);
                }
                let e1 = match hex_digit_val(z[i + 9]) {
                    Some(d) => d,
                    None => {
                        return Err(JErr::Fail);
                    },
                };
                if i + 10 >= z.len() {
                    return Err(JErr::Incomplete);
                }
                let e2 = match hex_digit_val(z[i + 10]) {
                    Some(d) => d,
                    None => {
                        return Err(JErr::Fail);
                    },
                };
                if i + 11 >= z.len() {
                    return Err(JErr::Incomplete);
                }
                let e3 = match hex_digit_val(z[i + 11]) {
                    Some(d) => d,
                    None => {
                        return Err(JErr::Fail);
                    },
                };
                let w: u32 = e0 * 4096 + e1 * 256 + e2 * 16 + e3;
                if !(0xdc00 <= w && w <= 0xdfff) {
                    return Err(JErr::Fail);
                }
                let scalar: u32 = 0x10000 + (v - 0xd800) * 0x400 + (w - 0xdc00);
                match crate::text::char_from_u32(scalar) {
                    Some(cv) => {
                        proof {
                            vstd::utf8::char_u32_cast(cv, scalar);
                        }
                        match p_str_body_exec(z, i + 12) {
                            Ok((mut t, k)) => {
                                let mut out: Vec<char> = Vec::new();
                                out.push(cv);
                                let ghost tv = t@;
                                out.append(&mut t);
                                proof {
                                    assert(out@ =~= seq![cv] + tv);
                                }
                                return Ok((out, k));
                            },
                            Err(e9) => {
                                return Err(e9);
                            },
                        }
                    },
                    None => {
                        proof {
                            assert(false);
                        }
                        return Err(JErr::Fail);
                    },
                }
            }
            match crate::text::char_from_u32(v) {
                Some(cv) => {
                    proof {
                        vstd::utf8::char_u32_cast(cv, v);
                    }
                    match p_str_body_exec(z, i + 6) {
                        Ok((mut t, k)) => {
                            let mut out: Vec<char> = Vec::new();
                            out.push(cv);
                            let ghost tv = t@;
                            out.append(&mut t);
                            proof {
                                assert(out@ =~= seq![cv] + tv);
                            }
                            return Ok((out, k));
                        },
                        Err(e2) => {
                            return Err(e2);
                        },
                    }
                },
                None => {
                    proof {
                        assert(false);
                    }
                    return Err(JErr::Fail);
                },
            }
        } else {
            return Err(JErr::Fail);
        }
    }
    if (c0 as u32) < 0x20 {
        return Err(JErr::Fail);
    }
    match p_str_body_exec(z, i + 1) {
        Ok((mut t, k)) => {
            let mut v: Vec<char> = Vec::new();
            v.push(c0);
            let ghost tv = t@;
            v.append(&mut t);
            proof {
                assert(v@ =~= seq![c0] + tv);
            }
            Ok((v, k))
        },
        Err(e2) => Err(e2),
    }
}


/// A string token, leading whitespace allowed.
fn p_string_exec(z: &Vec<char>, i: usize) -> (r: Result<(Vec<char>, usize), JErr>)
    requires
        i <= z@.len(),
    ensures
        r matches Ok((v, j)) ==> (p_string(z@, i as int) == PRes::Parsed(v@, j as int) && j
            <= z@.len()),
        r == Err::<(Vec<char>, usize), JErr>(JErr::Incomplete) ==> p_string(z@, i as int)
            is Incomplete,
        r == Err::<(Vec<char>, usize), JErr>(JErr::Fail) ==> p_string(z@, i as int) is Fail,
{
    let j = skip_ws_exec(z, i);
    if j >= z.len() {
        return Err(JErr::Incomplete);
    }
    if z[j] != '"' {
        return Err(JErr::Fail);
    }
    p_str_body_exec(z, j + 1)
}

/// A digit run folded into `acc`, failing past `bound`.
fn p_dec_rec_exec(z: &Vec<char>, i: usize, acc: u64, bound: u64) -> (r: Result<
    (u64, usize),
    JErr,
>)
    requires
        i <= z@.len(),
        acc <= bound,
    ensures
        r matches Ok((v, j)) ==> (p_dec_rec(z@, i as int, acc as int, bound as int) == PRes::Parsed(
            v as int,
            j as int,
        ) && v <= bound && i <= j <= z@.len()),
        r == Err::<(u64, usize), JErr>(JErr::Fail) ==> p_dec_rec(
            z@,
            i as int,
            acc as int,
            bound as int,
        ) is Fail,
        !(r == Err::<(u64, usize), JErr>(JErr::Incomplete)),
    decreases z@.len() - i,
{
    if i >= z.len() {
        return Ok((acc, i));
    }
    let c = z[i];
    if '0' <= c && c <= '9' {
        let d: u64 = ((c as u32) - 0x30) as u64;
        let wide: u128 = (acc as u128) * 10 + (d as u128);
        if wide > bound as u128 {
            return Err(JErr::Fail);
        }
        let a2: u64 = (wide) as u64;
        p_dec_rec_exec(z, i + 1, a2, bound)
    } else {
        Ok((acc, i))
    }
}

/// An unsigned decimal no larger than `bound`, leading whitespace allowed.
fn p_dec_exec(z: &Vec<char>, i: usize, bound: u64) -> (r: Result<(u64, usize), JErr>)
    requires
        i <= z@.len(),
    ensures
        r matches Ok((v, j)) ==> (p_dec(z@, i as int, bound as int) == PRes::Parsed(
            v as int,
            j as int,
        ) && v <= bound && j <= z@.len()),
        r == Err::<(u64, usize), JErr>(JErr::Incomplete) ==> p_dec(z@, i as int, bound as int)
            is Incomplete,
        r == Err::<(u64, usize), JErr>(JErr::Fail) ==> p_dec(z@, i as int, bound as int) is Fail,
{
    let j = skip_ws_exec(z, i);
    if j >= z.len() {
        return Err(JErr::Incomplete);
    }
    let c = z[j];
    if !('0' <= c && c <= '9') {
        return Err(JErr::Fail);
    }
    if c == '0' && j + 1 < z.len() {
        let c2 = z[j + 1];
        if '0' <= c2 && c2 <= '9' {
            return Err(JErr::Fail);
        }
    }
    p_dec_rec_exec(z, j, 0, bound)
}

/// A possibly negative 64-bit decimal, leading whitespace allowed.
fn p_i64_exec(z: &Vec<char>, i: usize) -> (r: Result<(i64, usize), JErr>)
    requires
        i <= z@.len(),
    ensures
        r matches Ok((v, j)) ==> (p_i64(z@, i as int) == PRes::Parsed(v, j as int) && j
            <= z@.len()),
        r == Err::<(i64, usize), JErr>(JErr::Incomplete) ==> p_i64(z@, i as int) is Incomplete,
        r == Err::<(i64, usize), JErr>(JErr::Fail) ==> p_i64(z@, i as int) is Fail,
{
    let j = skip_ws_exec(z, i);
    if j >= z.len() {
        return Err(JErr::Incomplete);
    }
    if z[j] == '-' {
        match p_dec_exec(z, j + 1, 0x8000_0000_0000_0000) {
            Ok((v, k)) => {
                let sv: i64 = if v == 0x8000_0000_0000_0000 {
                    i64::MIN
                } else {
                    -(v as i64)
                };
                Ok((sv, k))
            },
            Err(e) => Err(e),
        }
    } else {
        match p_dec_exec(z, j, 0x7fff_ffff_ffff_ffff) {
            Ok((v, k)) => Ok((v as i64, k)),
            Err(e) => Err(e),
        }
    }
}

/// `true` or `false`, leading whitespace allowed.
fn p_bool_exec(z: &Vec<char>, i: usize) -> (r: Result<(bool, usize), JErr>)
    requires
        i <= z@.len(),
    ensures
        r matches Ok((v, j)) ==> (p_bool(z@, i as int) == PRes::Parsed(v, j as int) && j
            <= z@.len()),
        r == Err::<(bool, usize), JErr>(JErr::Incomplete) ==> p_bool(z@, i as int) is Incomplete,
        r == Err::<(bool, usize), JErr>(JErr::Fail) ==> p_bool(z@, i as int) is Fail,
{
    let j = skip_ws_exec(z, i);
    if j >= z.len() {
        return Err(JErr::Incomplete);
    }
    if z[j] == 't' {
        match p_lit_exec(z, j, "true") {
            Ok(k) => Ok((true, k)),
            Err(e) => Err(e),
        }
    } else if z[j] == 'f' {
        match p_lit_exec(z, j, "false") {
            Ok(k) => Ok((false, k)),
            Err(e) => Err(e),
        }
    } else {
        Err(JErr::Fail)
    }
}

/// `null` or a string token, leading whitespace allowed.
fn p_null_or_string_exec(z: &Vec<char>, i: usize) -> (r: Result<(Option<Vec<char>>, usize), JErr>)
    requires
        i <= z@.len(),
    ensures
        r matches Ok((v, j)) ==> (p_null_or_string(z@, i as int) == PRes::Parsed(
            match v {
                Some(t) => Some(t@),
                None => None,
            },
            j as int,
        ) && j <= z@.len()),
        r == Err::<(Option<Vec<char>>, usize), JErr>(JErr::Incomplete) ==> p_null_or_string(
            z@,
            i as int,
        ) is Incomplete,
        r == Err::<(Option<Vec<char>>, usize), JErr>(JErr::Fail) ==> p_null_or_string(
            z@,
            i as int,
        ) is Fail,
{
    let j = skip_ws_exec(z, i);
    if j >= z.len() {
        return Err(JErr::Incomplete);
    }
    if z[j] == 'n' {
        match p_lit_exec(z, j, "null") {
            Ok(k) => Ok((None, k)),
            Err(e) => Err(e),
        }
    } else if z[j] == '"' {
        match p_str_body_exec(z, j + 1) {
            Ok((t, k)) => Ok((Some(t), k)),
            Err(e) => Err(e),
        }
    } else {
        Err(JErr::Fail)
    }
}

/// Whether a char vector holds exactly the chars of `lit`.
fn chars_eq(v: &Vec<char>, lit: &str) -> (b: bool)
    ensures
        b == (v@ == lit@),
{
    let n = lit.unicode_len();
    if v.len() != n {
        return false;
    }
    let mut i: usize = 0;
    while i < n
        invariant
            n == lit@.len(),
            n == v@.len(),
            i <= n,
            forall|k: int| 0 <= k < i ==> v@[k] == lit@[k],
        decreases n - i,
    {
        if v[i] != lit.get_char(i) {
            return false;
        }
        i = i + 1;
    }
    proof {
        assert(v@ =~= lit@);
    }
    true
}


/// A call value in its tagged form.
#[verifier::rlimit(100)]
#[verifier::spinoff_prover]
fn p_call_exec(z: &Vec<char>, i: usize) -> (r: Result<(crate::Call, usize), JErr>)
    requires
        i <= z@.len(),
    ensures
        r matches Ok((v, j)) ==> (crate::json_model::p_call(z@, i as int) == PRes::Parsed(
            v@,
            j as int,
        ) && j <= z@.len()),
        r == Err::<(crate::Call, usize), JErr>(JErr::Incomplete) ==> crate::json_model::p_call(
            z@,
            i as int,
        ) is Incomplete,
        r == Err::<(crate::Call, usize), JErr>(JErr::Fail) ==> crate::json_model::p_call(
            z@,
            i as int,
        ) is Fail,
{
    let i1 = match p_obj_first_key_exec(z, i, "\"method\"") {
        Ok(j) => j,
        Err(e) => {
            return Err(e);
        },
    };
    let (m, i2) = match p_string_exec(z, i1) {
        Ok(v) => v,
        Err(e) => {
            return Err(e);
        },
    };
    if chars_eq(&m, "process_key") {
        let i3 = match p_next_key_exec(z, i2, "\"params\"") {
            Ok(j) => j,
            Err(e) => {
                return Err(e);
            },
        };
        let i4 = match p_obj_first_key_exec(z, i3, "\"keycode\"") {
            Ok(j) => j,
            Err(e) => {
                return Err(e);
            },
        };
        let (kc, i5) = match p_dec_exec(z, i4, 0xffff_ffff) {
            Ok(v) => v,
            Err(e) => {
                return Err(e);
            },
        };
        let i6 = match p_next_key_exec(z, i5, "\"mask\"") {
            Ok(j) => j,
            Err(e) => {
                return Err(e);
            },
        };
        let (mk, i7) = match p_dec_exec(z, i6, 0xffff_ffff) {
            Ok(v) => v,
            Err(e) => {
                return Err(e);
            },
        };
        let i8 = match p_obj_end_exec(z, i7) {
            Ok(j) => j,
            Err(e) => {
                return Err(e);
            },
        };
        let i9 = match p_obj_end_exec(z, i8) {
            Ok(j) => j,
            Err(e) => {
                return Err(e);
            },
        };
        Ok((crate::Call::ProcessKey { keycode: kc as u32, mask: mk as u32 }, i9))
    } else if chars_eq(&m, "config_value_integer") {
        let i3 = match p_next_key_exec(z, i2, "\"params\"") {
            Ok(j) => j,
            Err(e) => {
                return Err(e);
            },
        };
        let i4 = match p_obj_first_key_exec(z, i3, "\"config_id\"") {
            Ok(j) => j,
            Err(e) => {
                return Err(e);
            },
        };
        let (cid, i5) = match p_string_exec(z, i4) {
            Ok(v) => v,
            Err(e) => {
                return Err(e);
            },
        };
        let i6 = match p_next_key_exec(z, i5, "\"option_key\"") {
            Ok(j) => j,
            Err(e) => {
                return Err(e);
            },
        };
        let (okey, i7) = match p_string_exec(z, i6) {
            Ok(v) => v,
            Err(e) => {
                return Err(e);
            },
        };
        let i8 = match p_obj_end_exec(z, i7) {
            Ok(j) => j,
            Err(e) => {
                return Err(e);
            },
        };
        let i9 = match p_obj_end_exec(z, i8) {
            Ok(j) => j,
            Err(e) => {
                return Err(e);
            },
        };
        Ok(
            (
                crate::Call::ConfigValueInteger {
                    config_id: string_from_chars(&cid),
                    option_key: string_from_chars(&okey),
                },
                i9,
            ),
        )
    } else if chars_eq(&m, "schema_name") {
        match p_obj_end_exec(z, i2) {
            Ok(i3) => Ok((crate::Call::SchemaName, i3)),
            Err(e) => Err(e),
        }
    } else if chars_eq(&m, "clear_composition") {
        match p_obj_end_exec(z, i2) {
            Ok(i3) => Ok((crate::Call::ClearComposition, i3)),
            Err(e) => Err(e),
        }
    } else if chars_eq(&m, "stop_client") {
        match p_obj_end_exec(z, i2) {
            Ok(i3) => Ok((crate::Call::StopClient, i3)),
            Err(e) => Err(e),
        }
    } else if chars_eq(&m, "stop_server") {
        match p_obj_end_exec(z, i2) {
            Ok(i3) => Ok((crate::Call::StopServer, i3)),
            Err(e) => Err(e),
        }
    } else {
        Err(JErr::Fail)
    }
}

/// A whole request object.
pub fn p_request_exec(z: &Vec<char>, i: usize) -> (r: Result<
    (crate::json_request_processor::Request, usize),
    JErr,
>)
    requires
        i <= z@.len(),
    ensures
        r matches Ok((v, j)) ==> (crate::json_model::p_request(z@, i as int) == PRes::Parsed(
            v@,
            j as int,
        ) && j <= z@.len()),
        r == Err::<(crate::json_request_processor::Request, usize), JErr>(JErr::Incomplete)
            ==> crate::json_model::p_request(z@, i as int) is Incomplete,
        r == Err::<(crate::json_request_processor::Request, usize), JErr>(JErr::Fail)
            ==> crate::json_model::p_request(z@, i as int) is Fail,
{
    let i1 = match p_obj_first_key_exec(z, i, "\"id\"") {
        Ok(j) => j,
        Err(e) => {
            return Err(e);
        },
    };
    let (idv, i2) = match p_string_exec(z, i1) {
        Ok(v) => v,
        Err(e) => {
            return Err(e);
        },
    };
    let i3 = match p_next_key_exec(z, i2, "\"call\"") {
        Ok(j) => j,
        Err(e) => {
            return Err(e);
        },
    };
    let (call, i4) = match p_call_exec(z, i3) {
        Ok(v) => v,
        Err(e) => {
            return Err(e);
        },
    };
    let i5 = match p_obj_end_exec(z, i4) {
        Ok(j) => j,
        Err(e) => {
            return Err(e);
        },
    };
    Ok((crate::json_request_processor::Request { id: string_from_chars(&idv), call }, i5))
}

/// A composition object.
fn p_composition_exec(z: &Vec<char>, i: usize) -> (r: Result<
    (crate::rime_api::RimeComposition, usize),
    JErr,
>)
    requires
        i <= z@.len(),
    ensures
        r matches Ok((v, j)) ==> (crate::json_model::p_composition(z@, i as int) == PRes::Parsed(
            v@,
            j as int,
        ) && j <= z@.len()),
        r == Err::<(crate::rime_api::RimeComposition, usize), JErr>(JErr::Incomplete)
            ==> crate::json_model::p_composition(z@, i as int) is Incomplete,
        r == Err::<(crate::rime_api::RimeComposition, usize), JErr>(JErr::Fail)
            ==> crate::json_model::p_composition(z@, i as int) is Fail,
{
    let bound: u64 = usize::MAX as u64;
    let i1 = match p_obj_first_key_exec(z, i, "\"length\"") {
        Ok(j) => j,
        Err(e) => {
            return Err(e);
        },
    };
    let (length, i2) = match p_dec_exec(z, i1, bound) {
        Ok(v) => v,
        Err(e) => {
            return Err(e);
        },
    };
    let i3 = match p_next_key_exec(z, i2, "\"cursor_pos\"") {
        Ok(j) => j,
        Err(e) => {
            return Err(e);
        },
    };
    let (cursor_pos, i4) = match p_dec_exec(z, i3, bound) {
        Ok(v) => v,
        Err(e) => {
            return Err(e);
        },
    };
    let i5 = match p_next_key_exec(z, i4, "\"sel_start\"") {
        Ok(j) => j,
        Err(e) => {
            return Err(e);
        },
    };
    let (sel_start, i6) = match p_dec_exec(z, i5, bound) {
        Ok(v) => v,
        Err(e) => {
            return Err(e);
        },
    };
    let i7 = match p_next_key_exec(z, i6, "\"sel_end\"") {
        Ok(j) => j,
        Err(e) => {
            return Err(e);
        },
    };
    let (sel_end, i8) = match p_dec_exec(z, i7, bound) {
        Ok(v) => v,
        Err(e) => {
            return Err(e);
        },
    };
    let i9 = match p_next_key_exec(z, i8, "\"preedit\"") {
        Ok(j) => j,
        Err(e) => {
            return Err(e);
        },
    };
    let (preedit, i10) = match p_string_exec(z, i9) {
        Ok(v) => v,
        Err(e) => {
            return Err(e);
        },
    };
    let i11 = match p_obj_end_exec(z, i10) {
        Ok(j) => j,
        Err(e) => {
            return Err(e);
        },
    };
    Ok(
        (
            crate::rime_api::RimeComposition {
                length: length as usize,
                cursor_pos: cursor_pos as usize,
                sel_start: sel_start as usize,
                sel_end: sel_end as usize,
                preedit: string_from_chars(&preedit),
            },
            i11,
        ),
    )
}

/// One candidate object.
fn p_candidate_exec(z: &Vec<char>, i: usize) -> (r: Result<
    (crate::rime_api::RimeCandidate, usize),
    JErr,
>)
    requires
        i <= z@.len(),
    ensures
        r matches Ok((v, j)) ==> (crate::json_model::p_candidate(z@, i as int) == PRes::Parsed(
            v@,
            j as int,
        ) && j <= z@.len()),
        r == Err::<(crate::rime_api::RimeCandidate, usize), JErr>(JErr::Incomplete)
            ==> crate::json_model::p_candidate(z@, i as int) is Incomplete,
        r == Err::<(crate::rime_api::RimeCandidate, usize), JErr>(JErr::Fail)
            ==> crate::json_model::p_candidate(z@, i as int) is Fail,
{
    let i1 = match p_obj_first_key_exec(z, i, "\"text\"") {
        Ok(j) => j,
        Err(e) => {
            return Err(e);
        },
    };
    let (text, i2) = match p_string_exec(z, i1) {
        Ok(v) => v,
        Err(e) => {
            return Err(e);
        },
    };
    let i3 = match p_next_key_exec(z, i2, "\"comment\"") {
        Ok(j) => j,
        Err(e) => {
            return Err(e);
        },
    };
    let (comment, i4) = match p_null_or_string_exec(z, i3) {
        Ok(v) => v,
        Err(e) => {
            return Err(e);
        },
    };
    let i5 = match p_obj_end_exec(z, i4) {
        Ok(j) => j,
        Err(e) => {
            return Err(e);
        },
    };
    let c = crate::rime_api::RimeCandidate {
        text: string_from_chars(&text),
        comment: match comment {
            Some(t) => Some(string_from_chars(&t)),
            None => None,
        },
    };
    Ok((c, i5))
}


/// One or more comma-separated candidates followed by `]`.
fn p_cand_list_exec(z: &Vec<char>, i: usize) -> (r: Result<
    (Vec<crate::rime_api::RimeCandidate>, usize),
    JErr,
>)
    requires
        i <= z@.len(),
    ensures
        r matches Ok((v, j)) ==> (crate::json_model::p_cand_list(z@, i as int) == PRes::Parsed(
            v@.map_values(|c: crate::rime_api::RimeCandidate| c@),
            j as int,
        ) && j <= z@.len()),
        r == Err::<(Vec<crate::rime_api::RimeCandidate>, usize), JErr>(JErr::Incomplete)
            ==> crate::json_model::p_cand_list(z@, i as int) is Incomplete,
        r == Err::<(Vec<crate::rime_api::RimeCandidate>, usize), JErr>(JErr::Fail)
            ==> crate::json_model::p_cand_list(z@, i as int) is Fail,
    decreases z@.len() - i,
{
    let (c, j) = match p_candidate_exec(z, i) {
        Ok(v) => v,
        Err(e) => {
            return Err(e);
        },
    };
    if j <= i {
        return Err(JErr::Fail);
    }
    let k = skip_ws_exec(z, j);
    if k < j {
        proof {
            assert(false);
        }
        return Err(JErr::Fail);
    }
    if k >= z.len() {
        return Err(JErr::Incomplete);
    }
    if z[k] == ',' {
        match p_cand_list_exec(z, k + 1) {
            Ok((mut rest, m)) => {
                let ghost restv = rest@;
                let mut out: Vec<crate::rime_api::RimeCandidate> = Vec::new();
                out.push(c);
                out.append(&mut rest);
                proof {
                    assert(out@ =~= seq![c] + restv);
                    assert(out@.map_values(|x: crate::rime_api::RimeCandidate| x@) =~= seq![c@]
                        + restv.map_values(|x: crate::rime_api::RimeCandidate| x@));
                }
                Ok((out, m))
            },
            Err(e) => Err(e),
        }
    } else if z[k] == ']' {
        let mut out: Vec<crate::rime_api::RimeCandidate> = Vec::new();
        out.push(c);
        proof {
            assert(out@ =~= seq![c]);
            assert(out@.map_values(|x: crate::rime_api::RimeCandidate| x@) =~= seq![c@]);
        }
        Ok((out, k + 1))
    } else {
        Err(JErr::Fail)
    }
}

/// A candidate array, brackets included.
fn p_cand_array_exec(z: &Vec<char>, i: usize) -> (r: Result<
    (Vec<crate::rime_api::RimeCandidate>, usize),
    JErr,
>)
    requires
        i <= z@.len(),
    ensures
        r matches Ok((v, j)) ==> (crate::json_model::p_cand_array(z@, i as int) == PRes::Parsed(
            v@.map_values(|c: crate::rime_api::RimeCandidate| c@),
            j as int,
        ) && j <= z@.len()),
        r == Err::<(Vec<crate::rime_api::RimeCandidate>, usize), JErr>(JErr::Incomplete)
            ==> crate::json_model::p_cand_array(z@, i as int) is Incomplete,
        r == Err::<(Vec<crate::rime_api::RimeCandidate>, usize), JErr>(JErr::Fail)
            ==> crate::json_model::p_cand_array(z@, i as int) is Fail,
{
    let j0 = skip_ws_exec(z, i);
    let j1 = match p_char_exec(z, j0, '[') {
        Ok(j) => j,
        Err(e) => {
            return Err(e);
        },
    };
    let k = skip_ws_exec(z, j1);
    if k >= z.len() {
        return Err(JErr::Incomplete);
    }
    if z[k] == ']' {
        let out: Vec<crate::rime_api::RimeCandidate> = Vec::new();
        proof {
            assert(out@.map_values(|c: crate::rime_api::RimeCandidate| c@) =~= Seq::<
                crate::rime_api::RimeCandidateV,
            >::empty());
        }
        Ok((out, k + 1))
    } else {
        p_cand_list_exec(z, k)
    }
}

/// A menu object.
fn p_menu_exec(z: &Vec<char>, i: usize) -> (r: Result<(crate::rime_api::RimeMenu, usize), JErr>)
    requires
        i <= z@.len(),
    ensures
        r matches Ok((v, j)) ==> (crate::json_model::p_menu(z@, i as int) == PRes::Parsed(
            v@,
            j as int,
        ) && j <= z@.len()),
        r == Err::<(crate::rime_api::RimeMenu, usize), JErr>(JErr::Incomplete)
            ==> crate::json_model::p_menu(z@, i as int) is Incomplete,
        r == Err::<(crate::rime_api::RimeMenu, usize), JErr>(JErr::Fail)
            ==> crate::json_model::p_menu(z@, i as int) is Fail,
{
    let bound: u64 = usize::MAX as u64;
    let i1 = match p_obj_first_key_exec(z, i, "\"candidates\"") {
        Ok(j) => j,
        Err(e) => {
            return Err(e);
        },
    };
    let (candidates, i2) = match p_cand_array_exec(z, i1) {
        Ok(v) => v,
        Err(e) => {
            return Err(e);
        },
    };
    let i3 = match p_next_key_exec(z, i2, "\"page_no\"") {
        Ok(j) => j,
        Err(e) => {
            return Err(e);
        },
    };
    let (page_no, i4) = match p_dec_exec(z, i3, bound) {
        Ok(v) => v,
        Err(e) => {
            return Err(e);
        },
    };
    let i5 = match p_next_key_exec(z, i4, "\"highlighted_candidate_index\"") {
        Ok(j) => j,
        Err(e) => {
            return Err(e);
        },
    };
    let (hci, i6) = match p_dec_exec(z, i5, bound) {
        Ok(v) => v,
        Err(e) => {
            return Err(e);
        },
    };
    let i7 = match p_next_key_exec(z, i6, "\"is_last_page\"") {
        Ok(j) => j,
        Err(e) => {
            return Err(e);
        },
    };
    let (ilp, i8) = match p_bool_exec(z, i7) {
        Ok(v) => v,
        Err(e) => {
            return Err(e);
        },
    };
    let i9 = match p_obj_end_exec(z, i8) {
        Ok(j) => j,
        Err(e) => {
            return Err(e);
        },
    };
    Ok(
        (
            crate::rime_api::RimeMenu {
                candidates,
                page_no: page_no as usize,
                highlighted_candidate_index: hci as usize,
                is_last_page: ilp,
            },
            i9,
        ),
    )
}

/// An effect value.
#[verifier::rlimit(100)]
#[verifier::spinoff_prover]
fn p_effect_exec(z: &Vec<char>, i: usize) -> (r: Result<(crate::Effect, usize), JErr>)
    requires
        i <= z@.len(),
    ensures
        r matches Ok((v, j)) ==> (crate::json_model::p_effect(z@, i as int) == PRes::Parsed(
            v@,
            j as int,
        ) && j <= z@.len()),
        r == Err::<(crate::Effect, usize), JErr>(JErr::Incomplete) ==> crate::json_model::p_effect(
            z@,
            i as int,
        ) is Incomplete,
        r == Err::<(crate::Effect, usize), JErr>(JErr::Fail) ==> crate::json_model::p_effect(
            z@,
            i as int,
        ) is Fail,
{
    let j = skip_ws_exec(z, i);
    if j >= z.len() {
        return Err(JErr::Incomplete);
    }
    if z[j] == '"' {
        let (tag, k) = match p_str_body_exec(z, j + 1) {
            Ok(v) => v,
            Err(e) => {
                return Err(e);
            },
        };
        if chars_eq(&tag, "stop_client") {
            Ok((crate::Effect::StopClient, k))
        } else if chars_eq(&tag, "stop_server") {
            Ok((crate::Effect::StopServer, k))
        } else {
            Err(JErr::Fail)
        }
    } else if z[j] == '{' {
        p_effect_obj_exec(z, i, j)
    } else {
        Err(JErr::Fail)
    }
}

/// The object forms of an effect, after the opening brace was seen.
#[verifier::rlimit(100)]
#[verifier::spinoff_prover]
fn p_effect_obj_exec(z: &Vec<char>, i: usize, j: usize) -> (r: Result<
    (crate::Effect, usize),
    JErr,
>)
    requires
        i <= z@.len(),
        j as int == crate::json_model::skip_ws(z@, i as int),
        j < z@.len(),
        z@[j as int] == '{',
    ensures
        r matches Ok((v, k)) ==> (crate::json_model::p_effect(z@, i as int) == PRes::Parsed(
            v@,
            k as int,
        ) && k <= z@.len()),
        r == Err::<(crate::Effect, usize), JErr>(JErr::Incomplete) ==> crate::json_model::p_effect(
            z@,
            i as int,
        ) is Incomplete,
        r == Err::<(crate::Effect, usize), JErr>(JErr::Fail) ==> crate::json_model::p_effect(
            z@,
            i as int,
        ) is Fail,
{
        match p_obj_first_key_exec(z, j, "\"commit_string\"") {
            Ok(i1) => {
                let (t, i2) = match p_string_exec(z, i1) {
                    Ok(v) => v,
                    Err(e) => {
                        return Err(e);
                    },
                };
                let i3 = match p_obj_end_exec(z, i2) {
                    Ok(v) => v,
                    Err(e) => {
                        return Err(e);
                    },
                };
                Ok((crate::Effect::CommitString(string_from_chars(&t)), i3))
            },
            Err(JErr::Incomplete) => Err(JErr::Incomplete),
            Err(JErr::Fail) => {
                let i1 = match p_obj_first_key_exec(z, j, "\"update_ui\"") {
                    Ok(v) => v,
                    Err(e) => {
                        return Err(e);
                    },
                };
                let i2 = match p_obj_first_key_exec(z, i1, "\"composition\"") {
                    Ok(v) => v,
                    Err(e) => {
                        return Err(e);
                    },
                };
                let (composition, i3) = match p_composition_exec(z, i2) {
                    Ok(v) => v,
                    Err(e) => {
                        return Err(e);
                    },
                };
                let i4 = match p_next_key_exec(z, i3, "\"menu\"") {
                    Ok(v) => v,
                    Err(e) => {
                        return Err(e);
                    },
                };
                let (menu, i5) = match p_menu_exec(z, i4) {
                    Ok(v) => v,
                    Err(e) => {
                        return Err(e);
                    },
                };
                let i6 = match p_obj_end_exec(z, i5) {
                    Ok(v) => v,
                    Err(e) => {
                        return Err(e);
                    },
                };
                let i7 = match p_obj_end_exec(z, i6) {
                    Ok(v) => v,
                    Err(e) => {
                        return Err(e);
                    },
                };
                Ok((crate::Effect::UpdateUi { composition, menu }, i7))
            },
        }
}

/// The name of an error identifier.
fn p_error_id_exec(z: &Vec<char>, i: usize) -> (r: Result<
    (crate::json_request_processor::ErrorId, usize),
    JErr,
>)
    requires
        i <= z@.len(),
    ensures
        r matches Ok((v, j)) ==> (crate::json_model::p_error_id(z@, i as int) == PRes::Parsed(
            v,
            j as int,
        ) && j <= z@.len()),
        r == Err::<(crate::json_request_processor::ErrorId, usize), JErr>(JErr::Incomplete)
            ==> crate::json_model::p_error_id(z@, i as int) is Incomplete,
        r == Err::<(crate::json_request_processor::ErrorId, usize), JErr>(JErr::Fail)
            ==> crate::json_model::p_error_id(z@, i as int) is Fail,
{
    let (name, k) = match p_string_exec(z, i) {
        Ok(v) => v,
        Err(e) => {
            return Err(e);
        },
    };
    if chars_eq(&name, "unsupported_input") {
        Ok((crate::json_request_processor::ErrorId::UnsupportedInput, k))
    } else if chars_eq(&name, "more_than_one_client") {
        Ok((crate::json_request_processor::ErrorId::MoreThanOneClient, k))
    } else if chars_eq(&name, "json_error") {
        Ok((crate::json_request_processor::ErrorId::JsonError, k))
    } else if chars_eq(&name, "io_error") {
        Ok((crate::json_request_processor::ErrorId::IoError, k))
    } else if chars_eq(&name, "option_not_found") {
        Ok((crate::json_request_processor::ErrorId::OptionNotFound, k))
    } else if chars_eq(&name, "config_not_found") {
        Ok((crate::json_request_processor::ErrorId::ConfigNotFound, k))
    } else {
        Err(JErr::Fail)
    }
}

/// An outcome value, dispatched on its single member key.
#[verifier::rlimit(100)]
#[verifier::spinoff_prover]
fn p_outcome_exec(z: &Vec<char>, i: usize) -> (r: Result<
    (crate::json_request_processor::Outcome, usize),
    JErr,
>)
    requires
        i <= z@.len(),
    ensures
        r matches Ok((v, j)) ==> (crate::json_model::p_outcome(z@, i as int) == PRes::Parsed(
            v@,
            j as int,
        ) && j <= z@.len()),
        r == Err::<(crate::json_request_processor::Outcome, usize), JErr>(JErr::Incomplete)
            ==> crate::json_model::p_outcome(z@, i as int) is Incomplete,
        r == Err::<(crate::json_request_processor::Outcome, usize), JErr>(JErr::Fail)
            ==> crate::json_model::p_outcome(z@, i as int) is Fail,
{
    match p_obj_first_key_exec(z, i, "\"effect\"") {
        Ok(i1) => {
            let (e, i2) = match p_effect_exec(z, i1) {
                Ok(v) => v,
                Err(e2) => {
                    return Err(e2);
                },
            };
            let i3 = match p_obj_end_exec(z, i2) {
                Ok(v) => v,
                Err(e2) => {
                    return Err(e2);
                },
            };
            Ok((crate::json_request_processor::Outcome::Effect(e), i3))
        },
        Err(JErr::Incomplete) => Err(JErr::Incomplete),
        Err(JErr::Fail) => {
            match p_obj_first_key_exec(z, i, "\"error\"") {
                Ok(i1) => {
                    let i2 = match p_obj_first_key_exec(z, i1, "\"id\"") {
                        Ok(v) => v,
                        Err(e2) => {
                            return Err(e2);
                        },
                    };
                    let (id, i3) = match p_error_id_exec(z, i2) {
                        Ok(v) => v,
                        Err(e2) => {
                            return Err(e2);
                        },
                    };
                    let i4 = match p_next_key_exec(z, i3, "\"message\"") {
                        Ok(v) => v,
                        Err(e2) => {
                            return Err(e2);
                        },
                    };
                    let (message, i5) = match p_string_exec(z, i4) {
                        Ok(v) => v,
                        Err(e2) => {
                            return Err(e2);
                        },
                    };
                    let i6 = match p_obj_end_exec(z, i5) {
                        Ok(v) => v,
                        Err(e2) => {
                            return Err(e2);
                        },
                    };
                    let i7 = match p_obj_end_exec(z, i6) {
                        Ok(v) => v,
                        Err(e2) => {
                            return Err(e2);
                        },
                    };
                    Ok(
                        (
                            crate::json_request_processor::Outcome::Error {
                                id,
                                message: string_from_chars(&message),
                            },
                            i7,
                        ),
                    )
                },
                Err(JErr::Incomplete) => Err(JErr::Incomplete),
                Err(JErr::Fail) => {
                    match p_obj_first_key_exec(z, i, "\"schema_name\"") {
                        Ok(i1) => {
                            let (n, i2) = match p_string_exec(z, i1) {
                                Ok(v) => v,
                                Err(e2) => {
                                    return Err(e2);
                                },
                            };
                            let i3 = match p_obj_end_exec(z, i2) {
                                Ok(v) => v,
                                Err(e2) => {
                                    return Err(e2);
                                },
                            };
                            Ok(
                                (
                                    crate::json_request_processor::Outcome::SchemaName(
                                        string_from_chars(&n),
                                    ),
                                    i3,
                                ),
                            )
                        },
                        Err(JErr::Incomplete) => Err(JErr::Incomplete),
                        Err(JErr::Fail) => {
                            let i1 = match p_obj_first_key_exec(
                                z,
                                i,
                                "\"config_value_integer\"",
                            ) {
                                Ok(v) => v,
                                Err(e2) => {
                                    return Err(e2);
                                },
                            };
                            let (v, i2) = match p_i64_exec(z, i1) {
                                Ok(v2) => v2,
                                Err(e2) => {
                                    return Err(e2);
                                },
                            };
                            let i3 = match p_obj_end_exec(z, i2) {
                                Ok(v2) => v2,
                                Err(e2) => {
                                    return Err(e2);
                                },
                            };
                            Ok(
                                (
                                    crate::json_request_processor::Outcome::ConfigValueInteger(v),
                                    i3,
                                ),
                            )
                        },
                    }
                },
            }
        },
    }
}

/// A whole reply object.
pub fn p_reply_exec(z: &Vec<char>, i: usize) -> (r: Result<
    (crate::json_request_processor::Reply, usize),
    JErr,
>)
    requires
        i <= z@.len(),
    ensures
        r matches Ok((v, j)) ==> (crate::json_model::p_reply(z@, i as int) == PRes::Parsed(
            v@,
            j as int,
        ) && j <= z@.len()),
        r == Err::<(crate::json_request_processor::Reply, usize), JErr>(JErr::Incomplete)
            ==> crate::json_model::p_reply(z@, i as int) is Incomplete,
        r == Err::<(crate::json_request_processor::Reply, usize), JErr>(JErr::Fail)
            ==> crate::json_model::p_reply(z@, i as int) is Fail,
{
    let i1 = match p_obj_first_key_exec(z, i, "\"id\"") {
        Ok(j) => j,
        Err(e) => {
            return Err(e);
        },
    };
    let (idv, i2) = match p_null_or_string_exec(z, i1) {
        Ok(v) => v,
        Err(e) => {
            return Err(e);
        },
    };
    let i3 = match p_next_key_exec(z, i2, "\"outcome\"") {
        Ok(j) => j,
        Err(e) => {
            return Err(e);
        },
    };
    let (outcome, i4) = match p_outcome_exec(z, i3) {
        Ok(v) => v,
        Err(e) => {
            return Err(e);
        },
    };
    let i5 = match p_obj_end_exec(z, i4) {
        Ok(j) => j,
        Err(e) => {
            return Err(e);
        },
    };
    let reply = crate::json_request_processor::Reply {
        id: match idv {
            Some(t) => Some(string_from_chars(&t)),
            None => None,
        },
        outcome,
    };
    Ok((reply, i5))
}

} // verus!
