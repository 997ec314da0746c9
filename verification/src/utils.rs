//! Truncation of free-form text to a fixed character budget.

use vstd::prelude::*;
use vstd::string::StrSliceExecFns;
use vstd::string::StringExecFns;

use crate::strings::push_char;

verus! {

/// The character budget for short inline bodies (comments, commit titles).
pub const SHORT_CONTENT_BUDGET: usize = 72;

/// The character budget for longer titles (forum threads).
pub const TITLE_CONTENT_BUDGET: usize = 140;

/// What truncation produces: a string of at most `budget` characters passes
/// through unchanged; a longer one keeps its first `budget` characters and
/// gains a single ellipsis marker.
pub open spec fn shortened(s: Seq<char>, budget: int) -> Seq<char> {
    if s.len() <= budget {
        s
    } else {
        s.subrange(0, budget).push('…')
    }
}

/// Truncates `content` to `max_length` characters, appending an ellipsis when
/// anything was cut off.
pub fn shorten_content_length(content: &str, max_length: usize) -> (r: String)
    ensures
        r@ == shortened(content@, max_length as int),
{
    let n = content.unicode_len();
    if n <= max_length {
        content.to_owned()
    } else {
        let head = content.substring_char(0, max_length);
        let mut out = head.to_owned();
        push_char(&mut out, '…');
        assert(out@ =~= shortened(content@, max_length as int));
        out
    }
}

/// Truncates `content` to the short inline budget.
pub fn shorten_content(content: &str) -> (r: String)
    ensures
        r@ == shortened(content@, SHORT_CONTENT_BUDGET as int),
{
    shorten_content_length(content, SHORT_CONTENT_BUDGET)
}

/// Truncation is idempotent: truncating an already-truncated string at the
/// same budget returns it unchanged.
pub proof fn lemma_shorten_idempotent(s: Seq<char>, budget: int)
    requires
        budget >= 0,
    ensures
        shortened(shortened(s, budget), budget) == shortened(s, budget),
{
    if s.len() > budget {
        let t = shortened(s, budget);
        assert(t.len() == budget + 1);
        assert(shortened(t, budget) =~= t) by {
            assert(t.subrange(0, budget) =~= s.subrange(0, budget));
        }
    }
}

} // verus!
