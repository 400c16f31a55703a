//! The streaming text decoder.
//!
//! Generated tokens arrive as raw byte fragments whose boundaries do not
//! align with encoded-character boundaries.  The decoder accepts a chunk of
//! bytes, emits the longest decodable prefix as text, and buffers a
//! trailing incomplete (but still completable) sequence for the next chunk.
//! A sequence that is only incomplete is never replaced; a sequence that
//! can no longer become valid is replaced by U+FFFD following the standard
//! maximal-subpart mapping, without aborting generation.
//!
//! The specification below classifies bytes with the vocabulary of
//! `vstd::utf8` and pins down, byte for byte, which characters a chunk
//! emits ([`stream_chars`]) and which bytes stay buffered ([`stream_rest`]).

use vstd::prelude::*;
use vstd::utf8::{
    codepoint_width_1, codepoint_width_2, codepoint_width_3, codepoint_width_4,
    is_continuation_byte, is_scalar,
};
use crate::textutil::{char_from_u32, string_push};

verus! {

/// The replacement character emitted for ill-formed byte sequences.
pub const REPLACEMENT_CHAR: char = '\u{FFFD}';

/// Width in bytes of the encoding introduced by lead byte `b`, or 0 when
/// `b` cannot begin any well-formed encoding (a stray continuation byte,
/// an overlong lead 0xC0/0xC1, or a lead above 0xF4).
pub open spec fn lead_width(b: u8) -> int {
    if b < 0x80 {
        1
    } else if 0xc2 <= b && b <= 0xdf {
        2
    } else if 0xe0 <= b && b <= 0xef {
        3
    } else if 0xf0 <= b && b <= 0xf4 {
        4
    } else {
        0
    }
}

/// Smallest byte allowed directly after the lead.  The leads 0xE0 and 0xF0
/// restrict it upward so that overlong encodings are rejected at the
/// earliest possible byte.
pub open spec fn second_min(b0: u8) -> u8 {
    if b0 == 0xe0 {
        0xa0
    } else if b0 == 0xf0 {
        0x90
    } else {
        0x80
    }
}

/// Largest byte allowed directly after the lead.  The lead 0xED excludes
/// the surrogate range and 0xF4 caps the value at U+10FFFF.
pub open spec fn second_max(b0: u8) -> u8 {
    if b0 == 0xed {
        0x9f
    } else if b0 == 0xf4 {
        0x8f
    } else {
        0xbf
    }
}

/// True when `b1` may follow the multi-byte lead `b0`.
pub open spec fn second_ok(b0: u8, b1: u8) -> bool {
    second_min(b0) <= b1 && b1 <= second_max(b0)
}

/// How many bytes after the lead continue a well-formed encoding, capped at
/// `lead_width(s[0]) - 1` and at the bytes actually present.
pub open spec fn matched_continuations(s: Seq<u8>) -> int
    recommends
        s.len() >= 1,
        lead_width(s[0]) >= 2,
{
    let w = lead_width(s[0]);
    if s.len() < 2 || !second_ok(s[0], s[1]) {
        0
    } else if w == 2 {
        1
    } else if s.len() < 3 || !is_continuation_byte(s[2]) {
        1
    } else if w == 3 {
        2
    } else if s.len() < 4 || !is_continuation_byte(s[3]) {
        2
    } else {
        3
    }
}

/// The scalar value encoded at the head of `s`, assuming a full match of
/// `lead_width(s[0])` well-formed bytes.
pub open spec fn scalar_at_head(s: Seq<u8>) -> u32
    recommends
        s.len() >= 1,
        lead_width(s[0]) >= 1,
        s.len() >= lead_width(s[0]),
{
    let w = lead_width(s[0]);
    if w == 1 {
        codepoint_width_1(s[0])
    } else if w == 2 {
        codepoint_width_2(s[0], s[1])
    } else if w == 3 {
        codepoint_width_3(s[0], s[1], s[2])
    } else {
        codepoint_width_4(s[0], s[1], s[2], s[3])
    }
}

/// The characters a streaming decoder emits for the chunk `s`: each
/// well-formed encoding becomes its character; each maximal subpart of a
/// sequence that can no longer become valid becomes one U+FFFD; a trailing
/// incomplete-but-completable prefix emits nothing (it stays buffered).
pub open spec fn stream_chars(s: Seq<u8>) -> Seq<char>
    decreases s.len(),
{
    if s.len() == 0 {
        Seq::empty()
    } else {
        let w = lead_width(s[0]);
        if w == 1 {
            seq![codepoint_width_1(s[0]) as char] + stream_chars(s.skip(1))
        } else if w == 0 {
            seq![REPLACEMENT_CHAR] + stream_chars(s.skip(1))
        } else {
            let m = matched_continuations(s);
            if 1 + m == w {
                seq![scalar_at_head(s) as char] + stream_chars(s.skip(w))
            } else if 1 + m == s.len() {
                Seq::empty()
            } else {
                seq![REPLACEMENT_CHAR] + stream_chars(s.skip(1 + m))
            }
        }
    }
}

/// The bytes a streaming decoder buffers after the chunk `s`: the trailing
/// prefix of a multi-byte encoding that further bytes could still complete,
/// or nothing.
pub open spec fn stream_rest(s: Seq<u8>) -> Seq<u8>
    decreases s.len(),
{
    if s.len() == 0 {
        Seq::empty()
    } else {
        let w = lead_width(s[0]);
        if w == 1 {
            stream_rest(s.skip(1))
        } else if w == 0 {
            stream_rest(s.skip(1))
        } else {
            let m = matched_continuations(s);
            if 1 + m == w {
                stream_rest(s.skip(w))
            } else if 1 + m == s.len() {
                s
            } else {
                stream_rest(s.skip(1 + m))
            }
        }
    }
}

proof fn lemma_ascii_codepoint(b0: u8)
    by (bit_vector)
    requires
        b0 < 0x80,
    ensures
        (b0 & 0x7f) == b0,
{
}

proof fn lemma_scalar_width_2(b0: u8, b1: u8)
    by (bit_vector)
    requires
        0xc2 <= b0,
        b0 <= 0xdf,
        0x80 <= b1,
        b1 <= 0xbf,
    ensures
        0x80 <= ((((b0 & 0x1F) as u32) << 6) | ((b1 & 0x3F) as u32)),
        ((((b0 & 0x1F) as u32) << 6) | ((b1 & 0x3F) as u32)) <= 0x7FF,
{
}

proof fn lemma_scalar_width_3(b0: u8, b1: u8, b2: u8)
    by (bit_vector)
    requires
        0xe0 <= b0,
        b0 <= 0xef,
        0x80 <= b1,
        b1 <= 0xbf,
        b0 == 0xe0 ==> 0xa0 <= b1,
        b0 == 0xed ==> b1 <= 0x9f,
        0x80 <= b2,
        b2 <= 0xbf,
    ensures
        0x800 <= ((((b0 & 0x0F) as u32) << 12) | (((b1 & 0x3F) as u32) << 6) | ((b2
            & 0x3F) as u32)),
        ((((b0 & 0x0F) as u32) << 12) | (((b1 & 0x3F) as u32) << 6) | ((b2 & 0x3F) as u32))
            <= 0xFFFF,
        !(0xD800 <= ((((b0 & 0x0F) as u32) << 12) | (((b1 & 0x3F) as u32) << 6) | ((b2
            & 0x3F) as u32)) && ((((b0 & 0x0F) as u32) << 12) | (((b1 & 0x3F) as u32) << 6) | ((b2
            & 0x3F) as u32)) <= 0xDFFF),
{
}

proof fn lemma_scalar_width_4(b0: u8, b1: u8, b2: u8, b3: u8)
    by (bit_vector)
    requires
        0xf0 <= b0,
        b0 <= 0xf4,
        0x80 <= b1,
        b1 <= 0xbf,
        b0 == 0xf0 ==> 0x90 <= b1,
        b0 == 0xf4 ==> b1 <= 0x8f,
        0x80 <= b2,
        b2 <= 0xbf,
        0x80 <= b3,
        b3 <= 0xbf,
    ensures
        0x10000 <= ((((b0 & 0x07) as u32) << 18) | (((b1 & 0x3F) as u32) << 12) | (((b2
            & 0x3F) as u32) << 6) | ((b3 & 0x3F) as u32)),
        ((((b0 & 0x07) as u32) << 18) | (((b1 & 0x3F) as u32) << 12) | (((b2 & 0x3F) as u32) << 6)
            | ((b3 & 0x3F) as u32)) <= 0x10FFFF,
{
}

fn lead_width_of(b: u8) -> (w: u8)
    ensures
        w as int == lead_width(b),
{
    if b < 0x80 {
        1
    } else if 0xc2 <= b && b <= 0xdf {
        2
    } else if 0xe0 <= b && b <= 0xef {
        3
    } else if 0xf0 <= b && b <= 0xf4 {
        4
    } else {
        0
    }
}

fn second_ok_of(b0: u8, b1: u8) -> (r: bool)
    ensures
        r == second_ok(b0, b1),
{
    let lo: u8 = if b0 == 0xe0 {
        0xa0
    } else if b0 == 0xf0 {
        0x90
    } else {
        0x80
    };
    let hi: u8 = if b0 == 0xed {
        0x9f
    } else if b0 == 0xf4 {
        0x8f
    } else {
        0xbf
    };
    lo <= b1 && b1 <= hi
}

fn cont_ok(b: u8) -> (r: bool)
    ensures
        r == is_continuation_byte(b),
{
    0x80 <= b && b <= 0xbf
}

fn push_scalar_char(out: &mut String, cp: u32)
    requires
        is_scalar(cp),
    ensures
        final(out)@ == old(out)@.push(cp as char),
{
    match char_from_u32(cp) {
        Some(c) => {
            string_push(out, c);
        },
        None => {
            proof {
                assert(false);
            }
        },
    }
}

/// Incremental byte-to-text decoder.  It retains a resumable state (the
/// buffered trailing bytes) across calls; [`Self::push_bytes`] relates each
/// call's output exactly to [`stream_chars`] and [`stream_rest`].
pub struct StreamDecoder {
    pending: Vec<u8>,
}

impl StreamDecoder {
    /// The bytes buffered from earlier chunks, waiting to be completed.
    pub closed spec fn pending_bytes(&self) -> Seq<u8> {
        self.pending@
    }

    /// A fresh decoder with nothing buffered.
    pub fn new() -> (d: Self)
        ensures
            d.pending_bytes() == Seq::<u8>::empty(),
    {
        StreamDecoder { pending: Vec::new() }
    }

    /// Feeds one chunk of bytes and appends every character it completes to
    /// `out`.  The characters appended and the bytes left buffered are
    /// exactly those of the streaming specification, applied to the
    /// buffered bytes followed by the chunk.
    pub fn push_bytes(&mut self, input: &Vec<u8>, out: &mut String)
        ensures
            final(out)@ == old(out)@ + stream_chars(old(self).pending_bytes() + input@),
            final(self).pending_bytes() == stream_rest(old(self).pending_bytes() + input@),
    {
        let ghost all: Seq<u8> = self.pending@ + input@;
        let mut buf: Vec<u8> = Vec::new();
        let mut t: usize = 0;
        while t < self.pending.len()
            invariant
                t <= self.pending.len(),
                buf@ == self.pending@.take(t as int),
                self.pending@ + input@ == all,
            decreases self.pending.len() - t,
        {
            buf.push(self.pending[t]);
            t = t + 1;
        }
        let mut t2: usize = 0;
        while t2 < input.len()
            invariant
                t2 <= input.len(),
                buf@ == self.pending@.take(self.pending@.len() as int) + input@.take(t2 as int),
                self.pending@ + input@ == all,
            decreases input.len() - t2,
        {
            buf.push(input[t2]);
            t2 = t2 + 1;
        }
        proof {
            assert(buf@ =~= all);
        }
        self.pending = Vec::new();
        let n = buf.len();
        let mut pos: usize = 0;
        let mut buffered: bool = false;
        proof {
            assert(buf@.skip(0) =~= buf@);
            assert(out@.skip(old(out)@.len() as int) =~= Seq::<char>::empty());
            assert(Seq::<char>::empty() + stream_chars(all) =~= stream_chars(all));
        }
        while pos < n
            invariant
                pos <= n,
                n == buf@.len(),
                buf@ == all,
                !buffered ==> self.pending@.len() == 0,
                old(out)@.is_prefix_of(out@),
                !buffered ==> stream_chars(all) == out@.skip(old(out)@.len() as int) + stream_chars(
                    buf@.skip(pos as int),
                ),
                !buffered ==> stream_rest(all) == stream_rest(buf@.skip(pos as int)),
                buffered ==> pos == n,
                buffered ==> stream_chars(all) == out@.skip(old(out)@.len() as int),
                buffered ==> stream_rest(all) == self.pending@,
            decreases n - pos,
        {
            let ghost tail: Seq<u8> = buf@.skip(pos as int);
            proof {
                assert(tail.len() == n - pos);
                assert(forall|i: int| 0 <= i < tail.len() ==> tail[i] == buf@[pos + i]);
            }
            let b0 = buf[pos];
            let w = lead_width_of(b0);
            if w == 1 {
                proof {
                    lemma_ascii_codepoint(b0);
                    assert(is_scalar(b0 as u32));
                    assert(codepoint_width_1(b0) == b0 as u32);
                }
                push_scalar_char(out, b0 as u32);
                pos = pos + 1;
                proof {
                    assert(tail.skip(1) =~= buf@.skip(pos as int));
                }
            } else if w == 0 {
                string_push(out, REPLACEMENT_CHAR);
                pos = pos + 1;
                proof {
                    assert(tail.skip(1) =~= buf@.skip(pos as int));
                }
            } else {
                let mut m: usize = 0;
                if pos + 1 < n && second_ok_of(b0, buf[pos + 1]) {
                    m = 1;
                    if w >= 3 && pos + 2 < n && cont_ok(buf[pos + 2]) {
                        m = 2;
                        if w == 4 && pos + 3 < n && cont_ok(buf[pos + 3]) {
                            m = 3;
                        }
                    }
                }
                proof {
                    assert(m as int == matched_continuations(tail));
                }
                if m + 1 == w as usize {
                    let cp: u32 = if w == 2 {
                        let b1 = buf[pos + 1];
                        proof {
                            lemma_scalar_width_2(b0, b1);
                        }
                        (((b0 & 0x1f) as u32) << 6u32) | ((b1 & 0x3f) as u32)
                    } else if w == 3 {
                        let b1 = buf[pos + 1];
                        let b2 = buf[pos + 2];
                        proof {
                            lemma_scalar_width_3(b0, b1, b2);
                        }
                        (((b0 & 0x0f) as u32) << 12u32) | (((b1 & 0x3f) as u32) << 6u32) | ((b2
                            & 0x3f) as u32)
                    } else {
                        let b1 = buf[pos + 1];
                        let b2 = buf[pos + 2];
                        let b3 = buf[pos + 3];
                        proof {
                            lemma_scalar_width_4(b0, b1, b2, b3);
                        }
                        (((b0 & 0x07) as u32) << 18u32) | (((b1 & 0x3f) as u32) << 12u32) | (((b2
                            & 0x3f) as u32) << 6u32) | ((b3 & 0x3f) as u32)
                    };
                    proof {
                        assert(is_scalar(cp));
                        assert(cp == scalar_at_head(tail));
                    }
                    push_scalar_char(out, cp);
                    pos = pos + w as usize;
                    proof {
                        assert(tail.skip(lead_width(tail[0])) =~= buf@.skip(pos as int));
                    }
                } else if pos + 1 + m == n {
                    let mut t3: usize = pos;
                    while t3 < n
                        invariant
                            pos <= t3 <= n,
                            n == buf@.len(),
                            self.pending@ == buf@.subrange(pos as int, t3 as int),
                        decreases n - t3,
                    {
                        let b = buf[t3];
                        self.pending.push(b);
                        t3 = t3 + 1;
                    }
                    proof {
                        assert(self.pending@ =~= tail);
                    }
                    buffered = true;
                    pos = n;
                } else {
                    string_push(out, REPLACEMENT_CHAR);
                    pos = pos + 1 + m;
                    proof {
                        assert(tail.skip(1 + m as int) =~= buf@.skip(pos as int));
                    }
                }
            }
        }
        proof {
            if !buffered {
                assert(buf@.skip(n as int) =~= Seq::<u8>::empty());
            }
            assert(out@ =~= old(out)@ + out@.skip(old(out)@.len() as int));
        }
    }
}


/// True of a buffered tail: a lead byte and continuations that are all
/// well-formed so far but still short of the encoding's full width.
pub open spec fn is_incomplete_prefix(p: Seq<u8>) -> bool {
    &&& p.len() > 0
    &&& lead_width(p[0]) >= 2
    &&& 1 + matched_continuations(p) == p.len()
    &&& p.len() < lead_width(p[0])
}

/// A buffered tail emits nothing and stays buffered whole.
pub proof fn lemma_incomplete_prefix_buffers(p: Seq<u8>)
    requires
        is_incomplete_prefix(p),
    ensures
        stream_chars(p) == Seq::<char>::empty(),
        stream_rest(p) == p,
{
}

/// Chunking is sound: decoding a stream in two chunks, carrying the
/// buffered tail of the first into the second, emits the same characters
/// and leaves the same tail as decoding the concatenation at once.
pub proof fn lemma_stream_composition(a: Seq<u8>, b: Seq<u8>)
    ensures
        stream_chars(a + b) == stream_chars(a) + stream_chars(stream_rest(a) + b),
        stream_rest(a + b) == stream_rest(stream_rest(a) + b),
    decreases a.len(),
{
    if a.len() == 0 {
        assert(a + b =~= b);
        assert(stream_rest(a) + b =~= b);
        assert(stream_chars(a) + stream_chars(b) =~= stream_chars(b));
    } else {
        let s = a + b;
        assert(s.len() == a.len() + b.len());
        assert(forall|i: int| 0 <= i < a.len() ==> s[i] == a[i]);
        let w = lead_width(a[0]);
        if w == 1 || w == 0 {
            assert(s.skip(1) =~= a.skip(1) + b);
            lemma_stream_composition(a.skip(1), b);
            assert(stream_chars(a) =~= stream_chars(a.skip(1)).insert(
                0,
                if w == 1 {
                    codepoint_width_1(a[0]) as char
                } else {
                    REPLACEMENT_CHAR
                },
            ));
            assert(stream_chars(s) =~= stream_chars(a) + stream_chars(stream_rest(a) + b));
        } else {
            let ma = matched_continuations(a);
            if 1 + ma == w {
                assert(matched_continuations(s) == ma);
                assert(scalar_at_head(s) == scalar_at_head(a));
                assert(s.skip(w) =~= a.skip(w) + b);
                lemma_stream_composition(a.skip(w), b);
                assert(stream_chars(s) =~= stream_chars(a) + stream_chars(stream_rest(a) + b));
            } else if 1 + ma == a.len() {
                assert(stream_rest(a) == a);
                assert(stream_chars(a) =~= Seq::<char>::empty());
                assert(stream_rest(a) + b =~= s);
                assert(stream_chars(a) + stream_chars(s) =~= stream_chars(s));
            } else {
                assert(matched_continuations(s) == ma);
                assert(s.skip(1 + ma) =~= a.skip(1 + ma) + b);
                lemma_stream_composition(a.skip(1 + ma), b);
                assert(stream_chars(s) =~= stream_chars(a) + stream_chars(stream_rest(a) + b));
            }
        }
    }
}


proof fn lemma_valid_width_2_bytes(b0: u8, b1: u8)
    by (bit_vector)
    requires
        0xc0 <= b0,
        b0 <= 0xdf,
        0x80 <= b1,
        b1 <= 0xbf,
        0x80 <= ((((b0 & 0x1F) as u32) << 6) | ((b1 & 0x3F) as u32)),
    ensures
        0xc2 <= b0,
{
}

proof fn lemma_valid_width_3_bytes(b0: u8, b1: u8, b2: u8)
    by (bit_vector)
    requires
        0xe0 <= b0,
        b0 <= 0xef,
        0x80 <= b1,
        b1 <= 0xbf,
        0x80 <= b2,
        b2 <= 0xbf,
        0x800 <= ((((b0 & 0x0F) as u32) << 12) | (((b1 & 0x3F) as u32) << 6) | ((b2
            & 0x3F) as u32)),
        !(0xD800 <= ((((b0 & 0x0F) as u32) << 12) | (((b1 & 0x3F) as u32) << 6) | ((b2
            & 0x3F) as u32)) && ((((b0 & 0x0F) as u32) << 12) | (((b1 & 0x3F) as u32) << 6) | ((b2
            & 0x3F) as u32)) <= 0xDFFF),
    ensures
        b0 == 0xe0 ==> 0xa0 <= b1,
        b0 == 0xed ==> b1 <= 0x9f,
{
}

proof fn lemma_valid_width_4_bytes(b0: u8, b1: u8, b2: u8, b3: u8)
    by (bit_vector)
    requires
        0xf0 <= b0,
        b0 <= 0xf7,
        0x80 <= b1,
        b1 <= 0xbf,
        0x80 <= b2,
        b2 <= 0xbf,
        0x80 <= b3,
        b3 <= 0xbf,
        0x10000 <= ((((b0 & 0x07) as u32) << 18) | (((b1 & 0x3F) as u32) << 12) | (((b2
            & 0x3F) as u32) << 6) | ((b3 & 0x3F) as u32)),
        ((((b0 & 0x07) as u32) << 18) | (((b1 & 0x3F) as u32) << 12) | (((b2 & 0x3F) as u32) << 6)
            | ((b3 & 0x3F) as u32)) <= 0x10FFFF,
    ensures
        b0 <= 0xf4,
        b0 == 0xf0 ==> 0x90 <= b1,
        b0 == 0xf4 ==> b1 <= 0x8f,
{
}

/// On valid UTF-8 the streaming decoder is exact: it emits precisely the
/// encoded characters, never a replacement, and buffers nothing.
pub proof fn lemma_stream_decodes_valid_utf8(s: Seq<u8>)
    requires
        vstd::utf8::valid_utf8(s),
    ensures
        stream_rest(s) == Seq::<u8>::empty(),
        stream_chars(s) == vstd::utf8::decode_utf8(s),
    decreases s.len(),
{
    if s.len() == 0 {
    } else {
        let rest = vstd::utf8::pop_first_scalar(s);
        if vstd::utf8::is_leading_byte_width_1(s[0]) {
            assert(lead_width(s[0]) == 1);
            assert(rest =~= s.skip(1));
            lemma_stream_decodes_valid_utf8(rest);
            assert(stream_chars(s) =~= vstd::utf8::decode_utf8(s));
        } else if vstd::utf8::is_leading_byte_width_2(s[0]) {
            lemma_valid_width_2_bytes(s[0], s[1]);
            assert(lead_width(s[0]) == 2);
            assert(second_ok(s[0], s[1]));
            assert(matched_continuations(s) == 1);
            assert(scalar_at_head(s) == vstd::utf8::decode_first_scalar(s));
            assert(rest =~= s.skip(2));
            lemma_stream_decodes_valid_utf8(rest);
            assert(stream_chars(s) =~= vstd::utf8::decode_utf8(s));
        } else if vstd::utf8::is_leading_byte_width_3(s[0]) {
            lemma_valid_width_3_bytes(s[0], s[1], s[2]);
            assert(lead_width(s[0]) == 3);
            assert(second_ok(s[0], s[1]));
            assert(matched_continuations(s) == 2);
            assert(scalar_at_head(s) == vstd::utf8::decode_first_scalar(s));
            assert(rest =~= s.skip(3));
            lemma_stream_decodes_valid_utf8(rest);
            assert(stream_chars(s) =~= vstd::utf8::decode_utf8(s));
        } else {
            lemma_valid_width_4_bytes(s[0], s[1], s[2], s[3]);
            assert(lead_width(s[0]) == 4);
            assert(second_ok(s[0], s[1]));
            assert(matched_continuations(s) == 3);
            assert(scalar_at_head(s) == vstd::utf8::decode_first_scalar(s));
            assert(rest =~= s.skip(4));
            lemma_stream_decodes_valid_utf8(rest);
            assert(stream_chars(s) =~= vstd::utf8::decode_utf8(s));
        }
    }
}

/// The longest-valid-prefix guarantee: fed valid text followed by the
/// start of one more character, the decoder emits exactly the text and
/// buffers exactly that start.  A sequence that is only incomplete is
/// never replaced.
pub proof fn lemma_valid_prefix_never_replaced(v: Seq<u8>, p: Seq<u8>)
    requires
        vstd::utf8::valid_utf8(v),
        p.len() == 0 || is_incomplete_prefix(p),
    ensures
        stream_chars(v + p) == vstd::utf8::decode_utf8(v),
        stream_rest(v + p) == p,
{
    lemma_stream_composition(v, p);
    lemma_stream_decodes_valid_utf8(v);
    assert(stream_rest(v) + p =~= p);
    if p.len() == 0 {
        assert(stream_chars(p) =~= Seq::<char>::empty());
        assert(stream_rest(p) =~= p);
    } else {
        lemma_incomplete_prefix_buffers(p);
    }
    assert(stream_chars(v + p) =~= vstd::utf8::decode_utf8(v) + Seq::<char>::empty());
    assert(vstd::utf8::decode_utf8(v) + Seq::<char>::empty() =~= vstd::utf8::decode_utf8(v));
}

} // verus!
