//! The prompt encoder: deterministic construction of a single formatted
//! prompt string from an ordered conversation.
//!
//! Each message is wrapped in role-delimited markers, and a trailing
//! assistant marker primes generation.  The template must be reproduced
//! bit-for-bit for compatibility with models trained on it.

use vstd::prelude::*;
use crate::chat::ChatMessage;

verus! {

/// True of the three roles the template knows.
pub open spec fn recognized_role(role: Seq<char>) -> bool {
    role == "system"@ || role == "user"@ || role == "assistant"@
}

/// The role marker actually written into the prompt: an unrecognized role
/// is encoded with the `user` marker (a recorded warning, never an error).
pub open spec fn canonical_role(role: Seq<char>) -> Seq<char> {
    if recognized_role(role) {
        role
    } else {
        "user"@
    }
}

/// One message, wrapped in its role-delimited markers.
pub open spec fn encoded_message(role: Seq<char>, content: Seq<char>) -> Seq<char> {
    "<|im_start|>"@ + canonical_role(role) + "\n"@ + content + "<|im_end|>\n"@
}

/// The first `n` messages of the conversation, encoded and concatenated in
/// input order.
pub open spec fn encoded_prefix(msgs: Seq<ChatMessage>, n: int) -> Seq<char>
    decreases n,
{
    if n <= 0 {
        Seq::empty()
    } else {
        encoded_prefix(msgs, n - 1) + encoded_message(msgs[n - 1].role@, msgs[n - 1].content@)
    }
}

/// The full prompt: every message in order, then the trailing assistant
/// marker.  An empty conversation still yields a valid (short) prompt
/// consisting of the bare trailing marker.
pub open spec fn chat_prompt(msgs: Seq<ChatMessage>) -> Seq<char> {
    encoded_prefix(msgs, msgs.len() as int) + "<|im_start|>assistant\n"@
}

/// Builds the formatted prompt for a conversation, exactly as
/// [`chat_prompt`] describes it.
pub fn build_prompt(messages: &Vec<ChatMessage>) -> (p: String)
    ensures
        p@ == chat_prompt(messages@),
{
    let sys = String::from_str("system");
    let usr = String::from_str("user");
    let asst = String::from_str("assistant");
    let mut p = String::new();
    let mut i: usize = 0;
    while i < messages.len()
        invariant
            i <= messages.len(),
            p@ == encoded_prefix(messages@, i as int),
            sys@ == "system"@,
            usr@ == "user"@,
            asst@ == "assistant"@,
        decreases messages.len() - i,
    {
        let m = &messages[i];
        p.append("<|im_start|>");
        if m.role == sys || m.role == usr || m.role == asst {
            p.append(m.role.as_str());
        } else {
            p.append("user");
        }
        p.append("\n");
        p.append(m.content.as_str());
        p.append("<|im_end|>\n");
        proof {
            assert(p@ =~= encoded_prefix(messages@, i as int + 1));
        }
        i = i + 1;
    }
    p.append("<|im_start|>assistant\n");
    proof {
        assert(p@ =~= chat_prompt(messages@));
    }
    p
}

} // verus!
