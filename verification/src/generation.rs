//! The token generation loop, as a verified state machine.
//!
//! The native inference runtime samples tokens; this module decides.  The
//! embedding application drives one [`GenSession`] per request: while the
//! session wants more, the application samples the next token (greedy,
//! deterministic), tells the session whether it is the model's
//! end-of-generation marker and, if not, hands over the token's raw bytes.
//! The session accumulates decoded text, advances the position, and stops
//! either at the end marker (reason `stop`) or when the position passes the
//! target length (reason `length`).
//!
//! [`GenProgress`] is the session's counter part alone; the termination law
//! [`lemma_generation_bounded`] is stated over it: however the runtime
//! behaves, a session finishes within its token budget.

use vstd::prelude::*;
use crate::chat::{usage_consistent, ChatUsage};
use crate::decoder::{stream_chars, stream_rest, StreamDecoder};

verus! {

/// The counters of one generation session: how many tokens the prompt
/// held, the generation cap, the current position (tokens decoded so far),
/// and whether the end-of-generation marker was sampled.
#[derive(Debug, Clone, Copy, PartialEq, Eq, Structural)]
pub struct GenProgress {
    pub prompt_tokens: u32,
    pub max_tokens: u32,
    pub position: u64,
    pub hit_end_marker: bool,
}

/// The target length: the loop keeps sampling while the position has not
/// passed the prompt length plus the generation cap.
pub open spec fn target_length(p: GenProgress) -> int {
    p.prompt_tokens + p.max_tokens
}

/// True while the loop should sample another token.
pub open spec fn progress_wants_more(p: GenProgress) -> bool {
    !p.hit_end_marker && p.position <= target_length(p)
}

/// Well-formedness of the counters: the position stays between the prompt
/// length and one past the target, and the whole budget fits the 32-bit
/// usage counters.
pub open spec fn progress_wf(p: GenProgress) -> bool {
    &&& p.prompt_tokens + p.max_tokens + 1 <= u32::MAX
    &&& p.prompt_tokens <= p.position
    &&& p.position <= target_length(p) + 1
}

/// One decision of the loop: the end marker finishes the session and emits
/// nothing; any other sampled token advances the position by one.
pub open spec fn progress_step(p: GenProgress, is_end_marker: bool) -> GenProgress {
    if is_end_marker {
        GenProgress { hit_end_marker: true, ..p }
    } else {
        GenProgress { position: (p.position + 1) as u64, ..p }
    }
}

/// The counters after feeding the session a sequence of sampling outcomes
/// (`true` marks the end-of-generation marker), stopping as the loop does.
pub open spec fn progress_run(p: GenProgress, events: Seq<bool>) -> GenProgress
    decreases events.len(),
{
    if events.len() == 0 || !progress_wants_more(p) {
        p
    } else {
        progress_run(progress_step(p, events[0]), events.drop_first())
    }
}

/// The stop reason reported for the session: `stop` for natural
/// termination at the end marker, `length` when the budget ran out first.
pub open spec fn stop_reason_of(p: GenProgress) -> Seq<char> {
    if p.hit_end_marker {
        "stop"@
    } else {
        "length"@
    }
}

/// The generation loop terminates within its token budget, whatever the
/// runtime samples: after at most `target_length - position + 1` further
/// outcomes the session no longer wants tokens, the number of generated
/// tokens never passes `max_tokens + 1`, and a run in which the end marker
/// never appears ends with reason `length`.
pub proof fn lemma_generation_bounded(p: GenProgress, events: Seq<bool>)
    requires
        progress_wf(p),
    ensures
        progress_wf(progress_run(p, events)),
        events.len() >= target_length(p) + 1 - p.position ==> !progress_wants_more(
            progress_run(p, events),
        ),
        progress_run(p, events).position - p.prompt_tokens <= p.max_tokens + 1,
        (!p.hit_end_marker && forall|i: int| 0 <= i < events.len() ==> !events[i])
            ==> stop_reason_of(progress_run(p, events)) == "length"@,
    decreases events.len(),
{
    if events.len() == 0 || !progress_wants_more(p) {
    } else {
        let q = progress_step(p, events[0]);
        assert(forall|i: int|
            0 <= i < events.drop_first().len() ==> events.drop_first()[i] == events[i + 1]);
        lemma_generation_bounded(q, events.drop_first());
    }
}

/// One in-flight generation request.
///
/// The session owns the per-request streaming decoder and the accumulated
/// response text; its counters are exposed through [`Self::progress`].
pub struct GenSession {
    prompt_tokens: u32,
    max_tokens: u32,
    position: u64,
    hit_end_marker: bool,
    decoder: StreamDecoder,
    content: String,
}

impl GenSession {
    /// The session's counters.
    pub closed spec fn progress(&self) -> GenProgress {
        GenProgress {
            prompt_tokens: self.prompt_tokens,
            max_tokens: self.max_tokens,
            position: self.position,
            hit_end_marker: self.hit_end_marker,
        }
    }

    /// The response text decoded so far.
    pub closed spec fn content_chars(&self) -> Seq<char> {
        self.content@
    }

    /// The bytes the streaming decoder holds back across steps.
    pub closed spec fn pending_bytes(&self) -> Seq<u8> {
        self.decoder.pending_bytes()
    }

    pub open spec fn wf(&self) -> bool {
        progress_wf(self.progress())
    }

    /// True while the loop should sample another token.
    pub open spec fn wants_more(&self) -> bool {
        progress_wants_more(self.progress())
    }

    /// A fresh session, positioned right after the decoded prompt.
    pub fn new(prompt_tokens: u32, max_tokens: u32) -> (s: Self)
        requires
            prompt_tokens + max_tokens + 1 <= u32::MAX,
        ensures
            s.wf(),
            s.progress() == (GenProgress {
                prompt_tokens,
                max_tokens,
                position: prompt_tokens as u64,
                hit_end_marker: false,
            }),
            s.content_chars() == Seq::<char>::empty(),
            s.pending_bytes() == Seq::<u8>::empty(),
    {
        GenSession {
            prompt_tokens,
            max_tokens,
            position: prompt_tokens as u64,
            hit_end_marker: false,
            decoder: StreamDecoder::new(),
            content: String::new(),
        }
    }

    /// True while the loop should sample another token.
    pub fn wants_more_now(&self) -> (b: bool)
        ensures
            b == self.wants_more(),
    {
        !self.hit_end_marker && self.position <= self.prompt_tokens as u64
            + self.max_tokens as u64
    }

    /// Feeds the session one sampling outcome.
    ///
    /// The end marker finishes the session before any text is emitted for
    /// that token.  Any other token's raw bytes run through the streaming
    /// decoder, appending exactly the characters of the streaming
    /// specification to the response text, and the position advances by
    /// one.
    pub fn step(&mut self, is_end_marker: bool, token_bytes: &Vec<u8>)
        requires
            old(self).wf(),
            old(self).wants_more(),
        ensures
            final(self).wf(),
            final(self).progress() == progress_step(old(self).progress(), is_end_marker),
            is_end_marker ==> final(self).content_chars() == old(self).content_chars(),
            is_end_marker ==> final(self).pending_bytes() == old(self).pending_bytes(),
            !is_end_marker ==> final(self).content_chars() == old(self).content_chars()
                + stream_chars(old(self).pending_bytes() + token_bytes@),
            !is_end_marker ==> final(self).pending_bytes() == stream_rest(
                old(self).pending_bytes() + token_bytes@,
            ),
    {
        if is_end_marker {
            self.hit_end_marker = true;
        } else {
            self.decoder.push_bytes(token_bytes, &mut self.content);
            self.position = self.position + 1;
        }
    }

    /// The stop reason for the finished session: `stop` at the end marker,
    /// `length` when the budget ran out.
    pub fn stop_reason(&self) -> (r: String)
        ensures
            r@ == stop_reason_of(self.progress()),
    {
        if self.hit_end_marker {
            String::from_str("stop")
        } else {
            String::from_str("length")
        }
    }

    /// The usage accounting of the session: prompt tokens, tokens generated
    /// since the prompt, and their sum as the total.
    pub fn usage(&self) -> (u: ChatUsage)
        requires
            self.wf(),
        ensures
            u.prompt_tokens == self.progress().prompt_tokens,
            u.completion_tokens == self.progress().position - self.progress().prompt_tokens,
            u.total_tokens == self.progress().position,
            usage_consistent(u),
    {
        let completion = (self.position - self.prompt_tokens as u64) as u32;
        ChatUsage {
            prompt_tokens: self.prompt_tokens,
            completion_tokens: completion,
            total_tokens: self.prompt_tokens + completion,
        }
    }

    /// The response text decoded so far.
    pub fn content(&self) -> (c: &String)
        ensures
            c@ == self.content_chars(),
    {
        &self.content
    }
}

/// The token batch for a request is sized to its prompt, never below the
/// historical 512 slots, so that the whole prompt always fits the batch.
pub fn batch_capacity_for(prompt_tokens: u32) -> (c: u32)
    ensures
        c == if prompt_tokens < 512 {
            512u32
        } else {
            prompt_tokens
        },
        c >= prompt_tokens,
        c >= 512,
{
    if prompt_tokens < 512 {
        512
    } else {
        prompt_tokens
    }
}

} // verus!
