//! Classification of the operator's answer to the confirmation prompt.
//!
//! The caller reads one line, strips surrounding whitespace, and hands the
//! bare answer here. An empty answer or a single `y`/`Y` accepts, a single
//! `n`/`N` declines, and anything else asks the caller to prompt again.

use vstd::prelude::*;

verus! {

/// What the operator's answer means for the batch.
#[derive(Clone, Copy, Debug, PartialEq, Eq, Structural)]
pub enum Answer {
    /// Perform the renames.
    Accept,
    /// Leave everything as it is.
    Decline,
    /// The answer was neither; prompt again.
    Retry,
}

/// True when `s` accepts: empty, or exactly one `y` or `Y`.
pub open spec fn is_accept_answer(s: Seq<char>) -> bool {
    s.len() == 0 || (s.len() == 1 && (s[0] == 'y' || s[0] == 'Y'))
}

/// True when `s` declines: exactly one `n` or `N`.
pub open spec fn is_decline_answer(s: Seq<char>) -> bool {
    s.len() == 1 && (s[0] == 'n' || s[0] == 'N')
}

/// Classifies a trimmed answer line.
pub fn classify_answer(answer: &str) -> (r: Answer)
    ensures
        r == Answer::Accept <==> is_accept_answer(answer@),
        r == Answer::Decline <==> is_decline_answer(answer@),
        r == Answer::Retry <==> !is_accept_answer(answer@) && !is_decline_answer(answer@),
{
    let n: usize = answer.unicode_len();
    if n == 0 {
        Answer::Accept
    } else if n == 1 {
        let c = answer.get_char(0);
        if c == 'y' || c == 'Y' {
            Answer::Accept
        } else if c == 'n' || c == 'N' {
            Answer::Decline
        } else {
            Answer::Retry
        }
    } else {
        Answer::Retry
    }
}

} // verus!
