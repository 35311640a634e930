//! The byte-at-a-time parser that turns what the terminal sends into
//! [`Input`] tokens: single-byte controls, CSI escape sequences (arrows,
//! keypad keys, cursor-position reports) and UTF-8 encoded characters.
use vstd::prelude::*;

use crate::terminal_interface::Input;
use crate::text::char_from_u32;
use vstd::utf8::{
    decode_first_scalar, is_continuation_byte, is_leading_byte_width_2, is_leading_byte_width_3,
    is_leading_byte_width_4, length_of_first_scalar, pop_first_scalar, valid_first_scalar,
    valid_utf8,
};

verus! {

/// CSI numeric parameters saturate here.  No keypad code or cursor
/// coordinate is this large, so a sequence whose parameter reached the
/// cap fails: the keypad codes accept only small values, and the cursor
/// report branch refuses a capped row or column outright.
pub const CSI_PARAM_CAP: usize = 1000000;

/// The parser's state between bytes.
///
/// The `Pending*ByteUtf8` states hold the bytes received so far of a
/// multi-byte UTF-8 character, leading byte included.
#[derive(Debug, Clone)]
pub enum ParserStateImpl {
    Start,
    Esc,
    Csi,
    Csi1NumParam(usize),
    CsiSemicolon(usize),
    Csi2NumParam(usize, usize),
    Completed(Input),
    /// An unsupported or invalid sequence; the caller restarts from `Start`.
    Failed,
    Pending2ByteUtf8(Vec<u8>),
    Pending3ByteUtf8(Vec<u8>),
    Pending4ByteUtf8(Vec<u8>),
}

/// Ghost form of [`ParserStateImpl`].
pub enum ParserStateV {
    Start,
    Esc,
    Csi,
    Csi1NumParam(usize),
    CsiSemicolon(usize),
    Csi2NumParam(usize, usize),
    Completed(Input),
    Failed,
    Pending2ByteUtf8(Seq<u8>),
    Pending3ByteUtf8(Seq<u8>),
    Pending4ByteUtf8(Seq<u8>),
}

impl View for ParserStateImpl {
    type V = ParserStateV;

    open spec fn view(&self) -> ParserStateV {
        match self {
            ParserStateImpl::Start => ParserStateV::Start,
            ParserStateImpl::Esc => ParserStateV::Esc,
            ParserStateImpl::Csi => ParserStateV::Csi,
            ParserStateImpl::Csi1NumParam(p) => ParserStateV::Csi1NumParam(*p),
            ParserStateImpl::CsiSemicolon(p) => ParserStateV::CsiSemicolon(*p),
            ParserStateImpl::Csi2NumParam(p, q) => ParserStateV::Csi2NumParam(*p, *q),
            ParserStateImpl::Completed(i) => ParserStateV::Completed(*i),
            ParserStateImpl::Failed => ParserStateV::Failed,
            ParserStateImpl::Pending2ByteUtf8(b) => ParserStateV::Pending2ByteUtf8(b@),
            ParserStateImpl::Pending3ByteUtf8(b) => ParserStateV::Pending3ByteUtf8(b@),
            ParserStateImpl::Pending4ByteUtf8(b) => ParserStateV::Pending4ByteUtf8(b@),
        }
    }
}

/// What decoding a whole buffer as UTF-8 yields: the first character when
/// the buffer is a valid encoding, `Failed` otherwise.
pub open spec fn spec_try_decode(b: Seq<u8>) -> ParserStateV {
    if valid_utf8(b) && b.len() > 0 {
        ParserStateV::Completed(Input::Char(decode_first_scalar(b) as char))
    } else {
        ParserStateV::Failed
    }
}

pub open spec fn spec_is_digit(byte: u8) -> bool {
    0x30 <= byte <= 0x39
}

pub open spec fn spec_digit(byte: u8) -> usize {
    (byte - 0x30) as usize
}

/// A CSI parameter extended by one digit, saturating at [`CSI_PARAM_CAP`].
pub open spec fn spec_sat_param(p: usize, d: usize) -> usize {
    if p * 10 + d > CSI_PARAM_CAP {
        CSI_PARAM_CAP
    } else {
        (p * 10 + d) as usize
    }
}

/// The parser's transition relation, one byte at a time.
pub open spec fn spec_consume(s: ParserStateV, byte: u8) -> ParserStateV {
    match s {
        ParserStateV::Start => {
            if byte == 0x00 {
                ParserStateV::Completed(Input::Nul)
            } else if byte == 0x03 {
                ParserStateV::Completed(Input::Etx)
            } else if byte == 0x04 {
                ParserStateV::Completed(Input::Eot)
            } else if byte == 0x08 {
                ParserStateV::Completed(Input::Bs)
            } else if byte == 0x09 {
                ParserStateV::Completed(Input::Ht)
            } else if byte == 0x0a {
                ParserStateV::Completed(Input::Lf)
            } else if byte == 0x0d {
                ParserStateV::Completed(Input::Cr)
            } else if byte == 0x7f {
                ParserStateV::Completed(Input::Del)
            } else if byte == 0x1b {
                ParserStateV::Esc
            } else if byte < 0x20 {
                // the remaining ASCII control characters are not supported
                ParserStateV::Failed
            } else if byte <= 0x7e {
                ParserStateV::Completed(Input::Char((byte as u32) as char))
            } else if is_leading_byte_width_2(byte) {
                ParserStateV::Pending2ByteUtf8(seq![byte])
            } else if is_leading_byte_width_3(byte) {
                ParserStateV::Pending3ByteUtf8(seq![byte])
            } else if is_leading_byte_width_4(byte) {
                ParserStateV::Pending4ByteUtf8(seq![byte])
            } else {
                ParserStateV::Failed
            }
        },
        ParserStateV::Esc => {
            if byte == 0x5b {
                ParserStateV::Csi
            } else {
                ParserStateV::Failed
            }
        },
        ParserStateV::Csi => {
            if byte == 0x41 {
                ParserStateV::Completed(Input::Up)
            } else if byte == 0x42 {
                ParserStateV::Completed(Input::Down)
            } else if byte == 0x43 {
                ParserStateV::Completed(Input::Right)
            } else if byte == 0x44 {
                ParserStateV::Completed(Input::Left)
            } else if byte == 0x46 {
                ParserStateV::Completed(Input::End)
            } else if byte == 0x48 {
                ParserStateV::Completed(Input::Home)
            } else if spec_is_digit(byte) {
                ParserStateV::Csi1NumParam(spec_digit(byte))
            } else {
                ParserStateV::Failed
            }
        },
        ParserStateV::Csi1NumParam(p) => {
            if spec_is_digit(byte) {
                ParserStateV::Csi1NumParam(spec_sat_param(p, spec_digit(byte)))
            } else if byte == 0x7e {
                if p == 1 {
                    ParserStateV::Completed(Input::KeypadHome)
                } else if p == 2 {
                    ParserStateV::Completed(Input::Insert)
                } else if p == 3 {
                    ParserStateV::Completed(Input::Delete)
                } else if p == 4 {
                    ParserStateV::Completed(Input::KeypadEnd)
                } else if p == 5 {
                    ParserStateV::Completed(Input::PageUp)
                } else if p == 6 {
                    ParserStateV::Completed(Input::PageDown)
                } else {
                    ParserStateV::Failed
                }
            } else if byte == 0x3b {
                ParserStateV::CsiSemicolon(p)
            } else {
                ParserStateV::Failed
            }
        },
        ParserStateV::CsiSemicolon(p) => {
            if spec_is_digit(byte) {
                ParserStateV::Csi2NumParam(p, spec_digit(byte))
            } else {
                ParserStateV::Failed
            }
        },
        ParserStateV::Csi2NumParam(p, q) => {
            if spec_is_digit(byte) {
                ParserStateV::Csi2NumParam(p, spec_sat_param(q, spec_digit(byte)))
            } else if byte == 0x52 {
                if 1 <= p < CSI_PARAM_CAP && 1 <= q < CSI_PARAM_CAP {
                    ParserStateV::Completed(Input::CursorPositionReport { row: p, col: q })
                } else {
                    ParserStateV::Failed
                }
            } else {
                ParserStateV::Failed
            }
        },
        ParserStateV::Pending2ByteUtf8(b) => {
            if b.len() < 2 && is_continuation_byte(byte) {
                if b.len() == 1 {
                    spec_try_decode(b + seq![byte])
                } else {
                    ParserStateV::Pending2ByteUtf8(b + seq![byte])
                }
            } else {
                ParserStateV::Failed
            }
        },
        ParserStateV::Pending3ByteUtf8(b) => {
            if b.len() < 3 && is_continuation_byte(byte) {
                if b.len() == 2 {
                    spec_try_decode(b + seq![byte])
                } else {
                    ParserStateV::Pending3ByteUtf8(b + seq![byte])
                }
            } else {
                ParserStateV::Failed
            }
        },
        ParserStateV::Pending4ByteUtf8(b) => {
            if b.len() < 4 && is_continuation_byte(byte) {
                if b.len() == 3 {
                    spec_try_decode(b + seq![byte])
                } else {
                    ParserStateV::Pending4ByteUtf8(b + seq![byte])
                }
            } else {
                ParserStateV::Failed
            }
        },
        _ => ParserStateV::Failed,
    }
}

/// Decode the single UTF-8 scalar starting at `i`, if one is there.
fn decode_scalar_at(bytes: &[u8], i: usize) -> (r: Option<(char, usize)>)
    requires
        i < bytes@.len(),
    ensures
        r matches Some((c, w)) ==> {
            &&& valid_first_scalar(bytes@.skip(i as int))
            &&& c == decode_first_scalar(bytes@.skip(i as int)) as char
            &&& c as u32 == decode_first_scalar(bytes@.skip(i as int))
            &&& w == length_of_first_scalar(bytes@.skip(i as int))
            &&& 1 <= w && i + w <= bytes@.len()
        },
        r is None ==> !valid_first_scalar(bytes@.skip(i as int)),
{
    let ghost s = bytes@.skip(i as int);
    let n = bytes.len();
    let b0 = bytes[i];
    assert(s[0] == b0);
    if b0 < 0x80 {
        let v: u32 = b0 as u32;
        assert(v == (b0 & 0x7f) as u32) by (bit_vector)
            requires
                b0 < 0x80,
                v == b0 as u32,
        ;
        match char_from_u32(v) {
            Some(c) => {
                proof {
                    vstd::utf8::char_u32_cast(c, v);
                }
                Some((c, 1))
            },
            None => {
                proof {
                    assert(false);
                }
                None
            },
        }
    } else if 0xc0 <= b0 && b0 <= 0xdf {
        if n - i < 2 {
            assert(!valid_first_scalar(s));
            return None;
        }
        let b1 = bytes[i + 1];
        assert(s[1] == b1);
        if !(0x80 <= b1 && b1 <= 0xbf) {
            return None;
        }
        let v: u32 = (((b0 & 0x1f) as u32) << 6u32) | ((b1 & 0x3f) as u32);
        if v < 0x80 {
            return None;
        }
        assert(v <= 0x7ff) by (bit_vector)
            requires
                v == (((b0 & 0x1f) as u32) << 6u32) | ((b1 & 0x3f) as u32),
        ;
        match char_from_u32(v) {
            Some(c) => {
                proof {
                    vstd::utf8::char_u32_cast(c, v);
                }
                Some((c, 2))
            },
            None => {
                proof {
                    assert(false);
                }
                None
            },
        }
    } else if 0xe0 <= b0 && b0 <= 0xef {
        if n - i < 3 {
            assert(!valid_first_scalar(s));
            return None;
        }
        let b1 = bytes[i + 1];
        let b2 = bytes[i + 2];
        assert(s[1] == b1 && s[2] == b2);
        if !(0x80 <= b1 && b1 <= 0xbf) || !(0x80 <= b2 && b2 <= 0xbf) {
            return None;
        }
        let v: u32 = (((b0 & 0x0f) as u32) << 12u32) | (((b1 & 0x3f) as u32) << 6u32) | ((b2
            & 0x3f) as u32);
        if v < 0x800 {
            return None;
        }
        match char_from_u32(v) {
            Some(c) => {
                proof {
                    vstd::utf8::char_u32_cast(c, v);
                }
                Some((c, 3))
            },
            None => {
                proof {
                    assert(v <= 0xffff) by (bit_vector)
                        requires
                            v == (((b0 & 0x0f) as u32) << 12u32) | (((b1 & 0x3f) as u32)
                                << 6u32) | ((b2 & 0x3f) as u32),
                    ;
                }
                None
            },
        }
    } else if 0xf0 <= b0 && b0 <= 0xf7 {
        if n - i < 4 {
            assert(!valid_first_scalar(s));
            return None;
        }
        let b1 = bytes[i + 1];
        let b2 = bytes[i + 2];
        let b3 = bytes[i + 3];
        assert(s[1] == b1 && s[2] == b2 && s[3] == b3);
        if !(0x80 <= b1 && b1 <= 0xbf) || !(0x80 <= b2 && b2 <= 0xbf) || !(0x80 <= b3 && b3
            <= 0xbf) {
            return None;
        }
        let v: u32 = (((b0 & 0x07) as u32) << 18u32) | (((b1 & 0x3f) as u32) << 12u32) | (((b2
            & 0x3f) as u32) << 6u32) | ((b3 & 0x3f) as u32);
        if v < 0x10000 {
            return None;
        }
        match char_from_u32(v) {
            Some(c) => {
                proof {
                    vstd::utf8::char_u32_cast(c, v);
                }
                Some((c, 4))
            },
            None => None,
        }
    } else {
        None
    }
}

impl ParserStateImpl {
    /// Decode a whole buffer holding one received UTF-8 character.
    ///
    /// Mirrors decoding the buffer as a string and taking its first
    /// character: the whole buffer must be valid UTF-8, and the first
    /// character is the result.
    pub fn try_decode_utf8(bytes: &[u8]) -> (r: ParserStateImpl)
        ensures
            r@ == spec_try_decode(bytes@),
    {
        let ghost b = bytes@;
        let n = bytes.len();
        if n == 0 {
            return ParserStateImpl::Failed;
        }
        let mut i: usize = 0;
        let mut first: Option<char> = None;
        proof {
            assert(b.skip(0int) =~= b);
        }
        while i < n
            invariant
                i <= n,
                n == b.len(),
                b == bytes@,
                n > 0,
                valid_utf8(b) <==> valid_utf8(b.skip(i as int)),
                i == 0 <==> first is None,
                first matches Some(c) ==> (valid_first_scalar(b) && c == decode_first_scalar(b)
                    as char),
            decreases n - i,
        {
            match decode_scalar_at(bytes, i) {
                None => {
                    proof {
                        assert(!valid_first_scalar(b.skip(i as int)));
                        assert(!valid_utf8(b.skip(i as int)));
                    }
                    return ParserStateImpl::Failed;
                },
                Some((c, w)) => {
                    proof {
                        let s = b.skip(i as int);
                        assert(pop_first_scalar(s) =~= b.skip(i + w));
                        assert(valid_utf8(s) <==> valid_utf8(b.skip(i + w)));
                        if i == 0 {
                            assert(b.skip(0) =~= b);
                        }
                    }
                    if i == 0 {
                        first = Some(c);
                    }
                    i = i + w;
                },
            }
        }
        proof {
            assert(b.skip(n as int) =~= Seq::<u8>::empty());
            assert(valid_utf8(b));
        }
        match first {
            Some(c) => {
                proof {
                    assert(decode_first_scalar(b) as char == c);
                }
                ParserStateImpl::Completed(Input::Char(c))
            },
            None => {
                proof {
                    assert(false);
                }
                ParserStateImpl::Failed
            },
        }
    }

    /// Feed one byte through the transition relation.
    pub fn consume_byte(self, byte: u8) -> (r: ParserStateImpl)
        ensures
            r@ == spec_consume(self@, byte),
    {
        let ghost sv = self@;
        match self {
            ParserStateImpl::Start => {
                let r = if byte == 0x00 {
                    ParserStateImpl::Completed(Input::Nul)
                } else if byte == 0x03 {
                    ParserStateImpl::Completed(Input::Etx)
                } else if byte == 0x04 {
                    ParserStateImpl::Completed(Input::Eot)
                } else if byte == 0x08 {
                    ParserStateImpl::Completed(Input::Bs)
                } else if byte == 0x09 {
                    ParserStateImpl::Completed(Input::Ht)
                } else if byte == 0x0a {
                    ParserStateImpl::Completed(Input::Lf)
                } else if byte == 0x0d {
                    ParserStateImpl::Completed(Input::Cr)
                } else if byte == 0x7f {
                    ParserStateImpl::Completed(Input::Del)
                } else if byte == 0x1b {
                    ParserStateImpl::Esc
                } else if byte < 0x20 {
                    ParserStateImpl::Failed
                } else if byte <= 0x7e {
                    match char_from_u32(byte as u32) {
                        Some(c) => {
                            proof {
                                vstd::utf8::char_u32_cast(c, byte as u32);
                            }
                            ParserStateImpl::Completed(Input::Char(c))
                        },
                        None => {
                            proof {
                                assert(false);
                            }
                            ParserStateImpl::Failed
                        },
                    }
                } else if 0xc0 <= byte && byte <= 0xdf {
                    let mut v: Vec<u8> = Vec::new();
                    v.push(byte);
                    assert(v@ =~= seq![byte]);
                    ParserStateImpl::Pending2ByteUtf8(v)
                } else if 0xe0 <= byte && byte <= 0xef {
                    let mut v: Vec<u8> = Vec::new();
                    v.push(byte);
                    assert(v@ =~= seq![byte]);
                    ParserStateImpl::Pending3ByteUtf8(v)
                } else if 0xf0 <= byte && byte <= 0xf7 {
                    let mut v: Vec<u8> = Vec::new();
                    v.push(byte);
                    assert(v@ =~= seq![byte]);
                    ParserStateImpl::Pending4ByteUtf8(v)
                } else {
                    ParserStateImpl::Failed
                };
                assert(r@ == spec_consume(sv, byte));
                r
            },
            ParserStateImpl::Esc => {
                let r = if byte == 0x5b {
                    ParserStateImpl::Csi
                } else {
                    ParserStateImpl::Failed
                };
                assert(r@ == spec_consume(sv, byte));
                r
            },
            ParserStateImpl::Csi => {
                let r = if byte == 0x41 {
                    ParserStateImpl::Completed(Input::Up)
                } else if byte == 0x42 {
                    ParserStateImpl::Completed(Input::Down)
                } else if byte == 0x43 {
                    ParserStateImpl::Completed(Input::Right)
                } else if byte == 0x44 {
                    ParserStateImpl::Completed(Input::Left)
                } else if byte == 0x46 {
                    ParserStateImpl::Completed(Input::End)
                } else if byte == 0x48 {
                    ParserStateImpl::Completed(Input::Home)
                } else if 0x30 <= byte && byte <= 0x39 {
                    ParserStateImpl::Csi1NumParam((byte - 0x30) as usize)
                } else {
                    ParserStateImpl::Failed
                };
                assert(r@ == spec_consume(sv, byte));
                r
            },
            ParserStateImpl::Csi1NumParam(p) => {
                let r = if 0x30 <= byte && byte <= 0x39 {
                    ParserStateImpl::Csi1NumParam(sat_param(p, (byte - 0x30) as usize))
                } else if byte == 0x7e {
                    if p == 1 {
                        ParserStateImpl::Completed(Input::KeypadHome)
                    } else if p == 2 {
                        ParserStateImpl::Completed(Input::Insert)
                    } else if p == 3 {
                        ParserStateImpl::Completed(Input::Delete)
                    } else if p == 4 {
                        ParserStateImpl::Completed(Input::KeypadEnd)
                    } else if p == 5 {
                        ParserStateImpl::Completed(Input::PageUp)
                    } else if p == 6 {
                        ParserStateImpl::Completed(Input::PageDown)
                    } else {
                        ParserStateImpl::Failed
                    }
                } else if byte == 0x3b {
                    ParserStateImpl::CsiSemicolon(p)
                } else {
                    ParserStateImpl::Failed
                };
                assert(r@ == spec_consume(sv, byte));
                r
            },
            ParserStateImpl::CsiSemicolon(p) => {
                let r = if 0x30 <= byte && byte <= 0x39 {
                    ParserStateImpl::Csi2NumParam(p, (byte - 0x30) as usize)
                } else {
                    ParserStateImpl::Failed
                };
                assert(r@ == spec_consume(sv, byte));
                r
            },
            ParserStateImpl::Csi2NumParam(p, q) => {
                let r = if 0x30 <= byte && byte <= 0x39 {
                    ParserStateImpl::Csi2NumParam(p, sat_param(q, (byte - 0x30) as usize))
                } else if byte == 0x52 {
                    if 1 <= p && p < CSI_PARAM_CAP && 1 <= q && q < CSI_PARAM_CAP {
                        ParserStateImpl::Completed(Input::CursorPositionReport { row: p, col: q })
                    } else {
                        ParserStateImpl::Failed
                    }
                } else {
                    ParserStateImpl::Failed
                };
                assert(r@ == spec_consume(sv, byte));
                r
            },
            ParserStateImpl::Pending2ByteUtf8(mut b) => {
                let ghost b0 = b@;
                assert(sv == ParserStateV::Pending2ByteUtf8(b0));
                let r = if b.len() < 2 && 0x80 <= byte && byte <= 0xbf {
                    let one = b.len() == 1;
                    b.push(byte);
                    assert(b@ == b0 + seq![byte]);
                    if one {
                        Self::try_decode_utf8(b.as_slice())
                    } else {
                        ParserStateImpl::Pending2ByteUtf8(b)
                    }
                } else {
                    ParserStateImpl::Failed
                };
                assert(r@ == spec_consume(sv, byte));
                r
            },
            ParserStateImpl::Pending3ByteUtf8(mut b) => {
                let ghost b0 = b@;
                let r = if b.len() < 3 && 0x80 <= byte && byte <= 0xbf {
                    let two = b.len() == 2;
                    b.push(byte);
                    assert(b@ == b0 + seq![byte]);
                    if two {
                        Self::try_decode_utf8(b.as_slice())
                    } else {
                        ParserStateImpl::Pending3ByteUtf8(b)
                    }
                } else {
                    ParserStateImpl::Failed
                };
                assert(r@ == spec_consume(sv, byte));
                r
            },
            ParserStateImpl::Pending4ByteUtf8(mut b) => {
                let ghost b0 = b@;
                let r = if b.len() < 4 && 0x80 <= byte && byte <= 0xbf {
                    let three = b.len() == 3;
                    b.push(byte);
                    assert(b@ == b0 + seq![byte]);
                    if three {
                        Self::try_decode_utf8(b.as_slice())
                    } else {
                        ParserStateImpl::Pending4ByteUtf8(b)
                    }
                } else {
                    ParserStateImpl::Failed
                };
                assert(r@ == spec_consume(sv, byte));
                r
            },
            _ => {
                let r = ParserStateImpl::Failed;
                assert(r@ == spec_consume(sv, byte));
                r
            },
        }
    }
}

/// Extend a CSI parameter by one digit, saturating at [`CSI_PARAM_CAP`].
fn sat_param(p: usize, d: usize) -> (r: usize)
    requires
        d <= 9,
    ensures
        r == spec_sat_param(p, d),
{
    if p > CSI_PARAM_CAP / 10 {
        assert(p * 10 + d > CSI_PARAM_CAP) by (nonlinear_arith)
            requires
                p > CSI_PARAM_CAP / 10,
        ;
        CSI_PARAM_CAP
    } else {
        assert(p * 10 <= CSI_PARAM_CAP) by (nonlinear_arith)
            requires
                p <= CSI_PARAM_CAP / 10,
        ;
        let x = p * 10 + d;
        if x > CSI_PARAM_CAP {
            CSI_PARAM_CAP
        } else {
            x
        }
    }
}

/// What one byte made of the parser: either a finished token, or a state
/// to feed the next byte to.
#[derive(Debug, Clone)]
pub enum ConsumeByteResult {
    Pending(ParserState),
    Completed(Input),
}

/// The parser as its callers hold it; a failed sequence silently resets
/// to `Start`.
#[derive(Debug, Clone)]
pub struct ParserState(pub ParserStateImpl);

impl ParserState {
    pub fn new() -> (r: Self)
        ensures
            r.0@ is Start,
    {
        Self(ParserStateImpl::Start)
    }

    /// Feed one byte; a completed token is handed out, anything else —
    /// a pending state, with failures reset to `Start` — is kept.
    pub fn consume_byte(self, byte: u8) -> (r: ConsumeByteResult)
        ensures
            spec_consume(self.0@, byte) matches ParserStateV::Completed(input) ==> r matches
                ConsumeByteResult::Completed(i) && i == input,
            spec_consume(self.0@, byte) is Failed ==> (r matches ConsumeByteResult::Pending(s)
                && s.0@ is Start),
            !(spec_consume(self.0@, byte) is Completed) && !(spec_consume(self.0@, byte)
                is Failed) ==> (r matches ConsumeByteResult::Pending(s) && s.0@ == spec_consume(
                self.0@,
                byte,
            )),
    {
        let next = self.0.consume_byte(byte);
        match next {
            ParserStateImpl::Completed(input) => ConsumeByteResult::Completed(input),
            ParserStateImpl::Failed => ConsumeByteResult::Pending(
                ParserState(ParserStateImpl::Start),
            ),
            pending => ConsumeByteResult::Pending(ParserState(pending)),
        }
    }
}

} // verus!

