//! Length-agnostic framing of JSON values on a byte stream.
//!
//! Received bytes are decoded incrementally: every complete UTF-8 scalar
//! moves from the byte tail into the char buffer, an incomplete trailing
//! scalar waits for more bytes, and invalid bytes surface as an error.
//! The parsers of `json_reader` then try the char buffer as one value.
use vstd::prelude::*;

use crate::text::char_from_u32;
use vstd::utf8::{
    decode_first_scalar, is_continuation_byte, is_leading_byte_width_1, is_leading_byte_width_2,
    is_leading_byte_width_3, is_leading_byte_width_4, length_of_first_scalar, valid_first_scalar,
};

verus! {

/// What the head of a byte sequence holds.
pub enum DStep {
    /// A complete scalar of the given byte width.
    Got(char, int),
    /// A proper prefix of a scalar; more bytes are needed.
    More,
    /// Bytes that no scalar starts with.
    Bad,
}

/// The decoding decision at the head of `bs`.
pub open spec fn spec_step(bs: Seq<u8>) -> DStep {
    if bs.len() == 0 {
        DStep::More
    } else {
        let b0 = bs[0];
        if is_leading_byte_width_1(b0) {
            DStep::Got(decode_first_scalar(bs) as char, 1)
        } else if is_leading_byte_width_2(b0) {
            if bs.len() < 2 {
                DStep::More
            } else if !is_continuation_byte(bs[1]) {
                DStep::Bad
            } else if valid_first_scalar(bs) {
                DStep::Got(decode_first_scalar(bs) as char, 2)
            } else {
                DStep::Bad
            }
        } else if is_leading_byte_width_3(b0) {
            if bs.len() >= 2 && !is_continuation_byte(bs[1]) {
                DStep::Bad
            } else if bs.len() >= 3 && !is_continuation_byte(bs[2]) {
                DStep::Bad
            } else if bs.len() < 3 {
                DStep::More
            } else if valid_first_scalar(bs) {
                DStep::Got(decode_first_scalar(bs) as char, 3)
            } else {
                DStep::Bad
            }
        } else if is_leading_byte_width_4(b0) {
            if bs.len() >= 2 && !is_continuation_byte(bs[1]) {
                DStep::Bad
            } else if bs.len() >= 3 && !is_continuation_byte(bs[2]) {
                DStep::Bad
            } else if bs.len() >= 4 && !is_continuation_byte(bs[3]) {
                DStep::Bad
            } else if bs.len() < 4 {
                DStep::More
            } else if valid_first_scalar(bs) {
                DStep::Got(decode_first_scalar(bs) as char, 4)
            } else {
                DStep::Bad
            }
        } else {
            DStep::Bad
        }
    }
}

/// The state a drain ends in: the chars decoded so far, the byte tail
/// still waiting, and whether everything seen was well-formed.
pub struct FeedV {
    pub chars: Seq<char>,
    pub pending: Seq<u8>,
    pub ok: bool,
}

/// Decoding every complete scalar at the head of `bs` into `cs`.
pub open spec fn spec_drain(cs: Seq<char>, bs: Seq<u8>) -> FeedV
    decreases bs.len(),
{
    match spec_step(bs) {
        DStep::Got(c, w) => {
            if 1 <= w <= bs.len() {
                spec_drain(cs.push(c), bs.skip(w))
            } else {
                FeedV { chars: Seq::empty(), pending: Seq::empty(), ok: false }
            }
        },
        DStep::More => FeedV { chars: cs, pending: bs, ok: true },
        DStep::Bad => FeedV { chars: Seq::empty(), pending: Seq::empty(), ok: false },
    }
}

/// One decoding step at index `i`, as the spec says.
fn decode_front(b: &Vec<u8>, i: usize) -> (r: Result<Option<(char, usize)>, ()>)
    requires
        i <= b@.len(),
    ensures
        r matches Ok(Some((c, w))) ==> (spec_step(b@.skip(i as int)) == DStep::Got(c, w as int)
            && 1 <= w && i + w <= b@.len()),
        r == Ok::<Option<(char, usize)>, ()>(None) ==> spec_step(b@.skip(i as int)) is More,
        r is Err ==> spec_step(b@.skip(i as int)) is Bad,
{
    let ghost s = b@.skip(i as int);
    let n = b.len();
    if i >= n {
        return Ok(None);
    }
    let b0 = b[i];
    assert(s[0] == b0);
    if b0 < 0x80 {
        let v: u32 = b0 as u32;
        assert(v == (b0 & 0x7f) as u32) by (bit_vector)
            requires
                b0 < 0x80,
                v == b0 as u32,
        ;
        match char_from_u32(v) {
            Some(c) => {
                proof {
                    vstd::utf8::char_u32_cast(c, v);
                }
                Ok(Some((c, 1)))
            },
            None => {
                proof {
                    assert(false);
                }
                Err(())
            },
        }
    } else if 0xc0 <= b0 && b0 <= 0xdf {
        if n - i < 2 {
            return Ok(None);
        }
        let b1 = b[i + 1];
        assert(s[1] == b1);
        if !(0x80 <= b1 && b1 <= 0xbf) {
            return Err(());
        }
        let v: u32 = (((b0 & 0x1f) as u32) << 6u32) | ((b1 & 0x3f) as u32);
        if v < 0x80 {
            return Err(());
        }
        assert(v <= 0x7ff) by (bit_vector)
            requires
                v == (((b0 & 0x1f) as u32) << 6u32) | ((b1 & 0x3f) as u32),
        ;
        match char_from_u32(v) {
            Some(c) => {
                proof {
                    vstd::utf8::char_u32_cast(c, v);
                }
                Ok(Some((c, 2)))
            },
            None => {
                proof {
                    assert(false);
                }
                Err(())
            },
        }
    } else if 0xe0 <= b0 && b0 <= 0xef {
        if n - i >= 2 && !(0x80 <= b[i + 1] && b[i + 1] <= 0xbf) {
            assert(s[1] == b@[i + 1]);
            return Err(());
        }
        if n - i >= 3 && !(0x80 <= b[i + 2] && b[i + 2] <= 0xbf) {
            assert(s[2] == b@[i + 2]);
            return Err(());
        }
        if n - i < 3 {
            return Ok(None);
        }
        let b1 = b[i + 1];
        let b2 = b[i + 2];
        assert(s[1] == b1 && s[2] == b2);
        let v: u32 = (((b0 & 0x0f) as u32) << 12u32) | (((b1 & 0x3f) as u32) << 6u32) | ((b2
            & 0x3f) as u32);
        if v < 0x800 {
            return Err(());
        }
        match char_from_u32(v) {
            Some(c) => {
                proof {
                    vstd::utf8::char_u32_cast(c, v);
                }
                Ok(Some((c, 3)))
            },
            None => {
                proof {
                    assert(v <= 0xffff) by (bit_vector)
                        requires
                            v == (((b0 & 0x0f) as u32) << 12u32) | (((b1 & 0x3f) as u32)
                                << 6u32) | ((b2 & 0x3f) as u32),
                    ;
                }
                Err(())
            },
        }
    } else if 0xf0 <= b0 && b0 <= 0xf7 {
        if n - i >= 2 && !(0x80 <= b[i + 1] && b[i + 1] <= 0xbf) {
            assert(s[1] == b@[i + 1]);
            return Err(());
        }
        if n - i >= 3 && !(0x80 <= b[i + 2] && b[i + 2] <= 0xbf) {
            assert(s[2] == b@[i + 2]);
            return Err(());
        }
        if n - i >= 4 && !(0x80 <= b[i + 3] && b[i + 3] <= 0xbf) {
            assert(s[3] == b@[i + 3]);
            return Err(());
        }
        if n - i < 4 {
            return Ok(None);
        }
        let b1 = b[i + 1];
        let b2 = b[i + 2];
        let b3 = b[i + 3];
        assert(s[1] == b1 && s[2] == b2 && s[3] == b3);
        let v: u32 = (((b0 & 0x07) as u32) << 18u32) | (((b1 & 0x3f) as u32) << 12u32) | (((b2
            & 0x3f) as u32) << 6u32) | ((b3 & 0x3f) as u32);
        if v < 0x10000 {
            return Err(());
        }
        match char_from_u32(v) {
            Some(c) => {
                proof {
                    vstd::utf8::char_u32_cast(c, v);
                }
                Ok(Some((c, 4)))
            },
            None => Err(()),
        }
    } else {
        Err(())
    }
}

/// The incremental byte-to-char decoder: decoded chars in arrival order,
/// plus the waiting tail of an incomplete scalar.
pub struct ByteToChars {
    pub chars: Vec<char>,
    pub pending: Vec<u8>,
}

impl ByteToChars {
    pub fn new() -> (r: Self)
        ensures
            r.chars@ == Seq::<char>::empty(),
            r.pending@ == Seq::<u8>::empty(),
    {
        ByteToChars { chars: Vec::new(), pending: Vec::new() }
    }

    /// Take in newly received bytes.  On well-formed input the decoded
    /// chars grow and a short tail may wait; on invalid input everything
    /// is discarded and the error surfaces.
    pub fn feed(&mut self, bytes: &[u8]) -> (r: Result<(), ()>)
        ensures
            ({
                let d = spec_drain(old(self).chars@, old(self).pending@ + bytes@);
                &&& (r is Ok <==> d.ok)
                &&& final(self).chars@ == d.chars
                &&& final(self).pending@ == d.pending
            }),
    {
        let ghost oldchars = self.chars@;
        let mut all: Vec<u8> = Vec::new();
        let mut t: usize = 0;
        while t < self.pending.len()
            invariant
                t <= self.pending@.len(),
                self.pending@ == old(self).pending@,
                self.chars@ == old(self).chars@,
                all@ == old(self).pending@.subrange(0, t as int),
            decreases self.pending@.len() - t,
        {
            all.push(self.pending[t]);
            assert(all@ =~= old(self).pending@.subrange(0, t + 1));
            t = t + 1;
        }
        assert(all@ =~= old(self).pending@);
        self.pending = Vec::new();
        let mut k: usize = 0;
        while k < bytes.len()
            invariant
                k <= bytes@.len(),
                self.chars@ == old(self).chars@,
                self.pending@ == Seq::<u8>::empty(),
                all@ == old(self).pending@ + bytes@.subrange(0, k as int),
            decreases bytes@.len() - k,
        {
            all.push(bytes[k]);
            assert(all@ =~= old(self).pending@ + bytes@.subrange(0, k + 1));
            k = k + 1;
        }
        assert(all@ =~= old(self).pending@ + bytes@.subrange(0, bytes@.len() as int));
        assert(bytes@.subrange(0, bytes@.len() as int) =~= bytes@);
        assert(all@ =~= old(self).pending@ + bytes@);
        let ghost whole = all@;
        proof {
            assert(whole.skip(0) =~= whole);
        }
        let mut i: usize = 0;
        loop
            invariant
                i <= all@.len(),
                all@ == whole,
                whole == old(self).pending@ + bytes@,
                oldchars == old(self).chars@,
                self.pending@ == Seq::<u8>::empty(),
                spec_drain(oldchars, whole) == spec_drain(self.chars@, whole.skip(i as int)),
            ensures
                i <= all@.len(),
                all@ == whole,
                whole == old(self).pending@ + bytes@,
                oldchars == old(self).chars@,
                self.pending@ == Seq::<u8>::empty(),
                spec_drain(oldchars, whole) == spec_drain(self.chars@, whole.skip(i as int)),
                spec_step(whole.skip(i as int)) is More,
            decreases all@.len() - i,
        {
            match decode_front(&all, i) {
                Ok(Some((c, w))) => {
                    proof {
                        assert(whole.skip(i as int).skip(w as int) =~= whole.skip(i + w));
                    }
                    assert(i + w <= all.len());
                    self.chars.push(c);
                    i = i + w;
                },
                Ok(None) => {
                    break ;
                },
                Err(()) => {
                    proof {
                        assert(spec_step(whole.skip(i as int)) is Bad);
                        assert(spec_drain(self.chars@, whole.skip(i as int)) == (FeedV {
                            chars: Seq::<char>::empty(),
                            pending: Seq::<u8>::empty(),
                            ok: false,
                        }));
                        assert(whole == old(self).pending@ + bytes@);
                    }
                    self.chars = Vec::new();
                    self.pending = Vec::new();
                    assert(self.chars@ =~= Seq::<char>::empty());
                    assert(self.pending@ =~= Seq::<u8>::empty());
                    return Err(());
                },
            }
        }
        let n = all.len();
        let mut tail: Vec<u8> = Vec::new();
        let mut j = i;
        while j < n
            invariant
                i <= j <= n,
                n == all@.len(),
                all@ == whole,
                tail@ == whole.subrange(i as int, j as int),
            decreases n - j,
        {
            tail.push(all[j]);
            assert(tail@ =~= whole.subrange(i as int, j + 1));
            j = j + 1;
        }
        proof {
            assert(tail@ =~= whole.skip(i as int));
        }
        self.pending = tail;
        Ok(())
    }
}


/// A complete scalar at the head is decided by its own bytes: appending
/// more bytes changes nothing, and a bad head stays bad.
proof fn lemma_step_extends(a: Seq<u8>, b: Seq<u8>)
    requires
        a.len() > 0,
    ensures
        spec_step(a) matches DStep::Got(c, w) ==> (1 <= w <= a.len() && spec_step(a + b)
            == spec_step(a)),
        spec_step(a) is Bad ==> spec_step(a + b) is Bad,
{
    let ab = a + b;
    assert(ab[0] == a[0]);
    assert forall|k: int| 0 <= k < a.len() implies ab[k] == a[k] by {}
    let b0 = a[0];
    if is_leading_byte_width_1(b0) {
        assert(decode_first_scalar(ab) == decode_first_scalar(a));
    } else if is_leading_byte_width_2(b0) {
        if a.len() >= 2 && is_continuation_byte(a[1]) {
            assert(decode_first_scalar(ab) == decode_first_scalar(a));
            assert(length_of_first_scalar(ab) == 2);
            assert(valid_first_scalar(ab) == valid_first_scalar(a));
        }
    } else if is_leading_byte_width_3(b0) {
        if a.len() >= 3 && is_continuation_byte(a[1]) && is_continuation_byte(a[2]) {
            assert(decode_first_scalar(ab) == decode_first_scalar(a));
            assert(length_of_first_scalar(ab) == 3);
            assert(valid_first_scalar(ab) == valid_first_scalar(a));
        }
    } else if is_leading_byte_width_4(b0) {
        if a.len() >= 4 && is_continuation_byte(a[1]) && is_continuation_byte(a[2])
            && is_continuation_byte(a[3]) {
            assert(decode_first_scalar(ab) == decode_first_scalar(a));
            assert(length_of_first_scalar(ab) == 4);
            assert(valid_first_scalar(ab) == valid_first_scalar(a));
        }
    }
}

/// Feeding bytes piecewise decodes exactly as feeding them at once.
proof fn lemma_drain_append(cs: Seq<char>, a: Seq<u8>, b: Seq<u8>)
    ensures
        spec_drain(cs, a + b) == (if spec_drain(cs, a).ok {
            spec_drain(spec_drain(cs, a).chars, spec_drain(cs, a).pending + b)
        } else {
            FeedV { chars: Seq::empty(), pending: Seq::empty(), ok: false }
        }),
    decreases a.len(),
{
    if a.len() == 0 {
        assert(spec_step(a) is More);
        assert(spec_drain(cs, a) == (FeedV { chars: cs, pending: a, ok: true }));
        assert(a + b =~= b);
        assert(spec_drain(cs, a).pending + b =~= a + b);
    } else {
        lemma_step_extends(a, b);
        match spec_step(a) {
            DStep::Got(c, w) => {
                assert((a + b).skip(w) =~= a.skip(w) + b);
                lemma_drain_append(cs.push(c), a.skip(w), b);
            },
            DStep::More => {
                assert(spec_drain(cs, a).pending + b =~= a + b);
            },
            DStep::Bad => {},
        }
    }
}

/// A drain that failed left nothing behind.
proof fn lemma_drain_fail_shape(cs: Seq<char>, bs: Seq<u8>)
    requires
        !spec_drain(cs, bs).ok,
    ensures
        spec_drain(cs, bs) == (FeedV {
            chars: Seq::<char>::empty(),
            pending: Seq::<u8>::empty(),
            ok: false,
        }),
    decreases bs.len(),
{
    match spec_step(bs) {
        DStep::Got(c, w) => {
            if 1 <= w <= bs.len() {
                lemma_drain_fail_shape(cs.push(c), bs.skip(w));
            }
        },
        DStep::More => {},
        DStep::Bad => {},
    }
}

/// A well-formed drain leaves a tail that still waits for more bytes.
proof fn lemma_drain_pending_more(cs: Seq<char>, bs: Seq<u8>)
    requires
        spec_drain(cs, bs).ok,
    ensures
        spec_step(spec_drain(cs, bs).pending) is More,
    decreases bs.len(),
{
    match spec_step(bs) {
        DStep::Got(c, w) => {
            if 1 <= w <= bs.len() {
                lemma_drain_pending_more(cs.push(c), bs.skip(w));
            }
        },
        DStep::More => {},
        DStep::Bad => {},
    }
}

/// Decoding the UTF-8 encoding of a text yields exactly that text, with
/// nothing pending.
pub proof fn lemma_drain_of_encoding(cs: Seq<char>, text: Seq<char>)
    ensures
        spec_drain(cs, vstd::utf8::encode_utf8(text)) == (FeedV {
            chars: cs + text,
            pending: Seq::empty(),
            ok: true,
        }),
    decreases text.len(),
{
    let bytes = vstd::utf8::encode_utf8(text);
    if text.len() == 0 {
        assert(bytes.len() == 0);
        assert(spec_step(bytes) is More);
        assert(bytes =~= Seq::<u8>::empty());
        assert(cs + text =~= cs);
    } else {
        vstd::utf8::encode_utf8_first_scalar(text);
        vstd::utf8::char_is_scalar(text[0]);
        vstd::utf8::char_u32_cast(text[0], decode_first_scalar(bytes));
        let w = length_of_first_scalar(bytes);
        assert(valid_first_scalar(bytes));
        assert(spec_step(bytes) == DStep::Got(text[0], w));
        assert(vstd::utf8::pop_first_scalar(bytes) =~= vstd::utf8::encode_utf8(
            text.drop_first(),
        ));
        assert(bytes.skip(w) =~= vstd::utf8::encode_utf8(text.drop_first()));
        lemma_drain_of_encoding(cs.push(text[0]), text.drop_first());
        assert(cs.push(text[0]) + text.drop_first() =~= cs + text);
    }
}

/// The bytes of a run of socket reads, in arrival order.
pub open spec fn pieces_flat(pieces: Seq<Seq<u8>>) -> Seq<u8>
    decreases pieces.len(),
{
    if pieces.len() == 0 {
        Seq::empty()
    } else {
        pieces[0] + pieces_flat(pieces.drop_first())
    }
}

/// The decoder state after feeding a run of reads, one `feed` each.
pub open spec fn feed_run(cs: Seq<char>, pending: Seq<u8>, pieces: Seq<Seq<u8>>) -> FeedV
    decreases pieces.len(),
{
    if pieces.len() == 0 {
        FeedV { chars: cs, pending, ok: true }
    } else {
        let d = spec_drain(cs, pending + pieces[0]);
        if !d.ok {
            d
        } else {
            feed_run(d.chars, d.pending, pieces.drop_first())
        }
    }
}

/// Feeding a byte stream in any pieces decodes exactly as feeding it
/// whole.
pub proof fn lemma_feed_run(cs: Seq<char>, pending: Seq<u8>, pieces: Seq<Seq<u8>>)
    requires
        spec_step(pending) is More,
    ensures
        feed_run(cs, pending, pieces) == spec_drain(cs, pending + pieces_flat(pieces)),
    decreases pieces.len(),
{
    if pieces.len() == 0 {
        assert(pending + pieces_flat(pieces) =~= pending);
        if pending.len() == 0 {
            assert(spec_drain(cs, pending) == (FeedV { chars: cs, pending, ok: true }));
        } else {
            assert(spec_drain(cs, pending) == (FeedV { chars: cs, pending, ok: true }));
        }
    } else {
        let d = spec_drain(cs, pending + pieces[0]);
        assert(pending + pieces_flat(pieces) =~= (pending + pieces[0]) + pieces_flat(
            pieces.drop_first(),
        ));
        lemma_drain_append(cs, pending + pieces[0], pieces_flat(pieces.drop_first()));
        if d.ok {
            lemma_drain_pending_more(cs, pending + pieces[0]);
            lemma_feed_run(d.chars, d.pending, pieces.drop_first());
        } else {
            lemma_drain_fail_shape(cs, pending + pieces[0]);
        }
    }
}

/// Framing idempotence for requests: a request's wire bytes, split into
/// any pieces and fed one by one, decode to exactly the request's text,
/// with nothing pending; parsing that text yields exactly the request,
/// consuming all of it — one value, once.
pub proof fn lemma_request_framing(r: crate::json_request_processor::RequestV, pieces: Seq<
    Seq<u8>,
>)
    requires
        pieces_flat(pieces) == vstd::utf8::encode_utf8(crate::json_model::ser_request(r)),
    ensures
        feed_run(Seq::empty(), Seq::empty(), pieces) == (FeedV {
            chars: crate::json_model::ser_request(r),
            pending: Seq::empty(),
            ok: true,
        }),
        crate::json_model::p_request(crate::json_model::ser_request(r), 0)
            == crate::json_model::PRes::Parsed(r, crate::json_model::ser_request(r).len() as int),
{
    assert(spec_step(Seq::<u8>::empty()) is More);
    lemma_feed_run(Seq::empty(), Seq::empty(), pieces);
    assert(Seq::<u8>::empty() + pieces_flat(pieces) =~= pieces_flat(pieces));
    lemma_drain_of_encoding(Seq::empty(), crate::json_model::ser_request(r));
    assert(Seq::<char>::empty() + crate::json_model::ser_request(r)
        =~= crate::json_model::ser_request(r));
    crate::json_laws::lemma_request_round_trip(r, Seq::empty());
    assert(crate::json_model::ser_request(r) + Seq::<char>::empty()
        =~= crate::json_model::ser_request(r));
}

/// Framing idempotence for replies, as for requests.
pub proof fn lemma_reply_framing(r: crate::json_request_processor::ReplyV, pieces: Seq<Seq<u8>>)
    requires
        pieces_flat(pieces) == vstd::utf8::encode_utf8(crate::json_model::ser_reply(r)),
    ensures
        feed_run(Seq::empty(), Seq::empty(), pieces) == (FeedV {
            chars: crate::json_model::ser_reply(r),
            pending: Seq::empty(),
            ok: true,
        }),
        crate::json_model::p_reply(crate::json_model::ser_reply(r), 0)
            == crate::json_model::PRes::Parsed(r, crate::json_model::ser_reply(r).len() as int),
{
    assert(spec_step(Seq::<u8>::empty()) is More);
    lemma_feed_run(Seq::empty(), Seq::empty(), pieces);
    assert(Seq::<u8>::empty() + pieces_flat(pieces) =~= pieces_flat(pieces));
    lemma_drain_of_encoding(Seq::empty(), crate::json_model::ser_reply(r));
    assert(Seq::<char>::empty() + crate::json_model::ser_reply(r)
        =~= crate::json_model::ser_reply(r));
    crate::json_laws::lemma_reply_round_trip(r, Seq::empty());
    assert(crate::json_model::ser_reply(r) + Seq::<char>::empty()
        =~= crate::json_model::ser_reply(r));
}

} // verus!
