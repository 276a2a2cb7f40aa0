//! The verified part of the AI rewrite path: the text that comes back from
//! the remote model is cleaned of markdown code fences before it replaces
//! the buffer, and a failed call is turned into the literal error text shown
//! in the buffer.  The network call itself lives in the surrounding
//! application; it hands the resulting text, or the error's message, to
//! these functions.

use vstd::prelude::*;
use vstd::string::*;

use crate::text::{spec_is_fence, spec_join_lines, spec_lines, is_fence, join_lines, split_lines};

verus! {

/// The text with a leading markdown code fence and a trailing one removed:
/// how an AI response that arrives wrapped in a code block is unwrapped.
pub open spec fn spec_clean_markdown(text: Seq<char>) -> Seq<char> {
    let ls = spec_lines(text);
    let ls1 = if ls.len() > 0 && spec_is_fence(ls[0]) {
        ls.drop_first()
    } else {
        ls
    };
    let ls2 = if ls1.len() > 0 && spec_is_fence(ls1.last()) {
        ls1.drop_last()
    } else {
        ls1
    };
    spec_join_lines(ls2)
}

/// Strip a markdown code block wrapper from AI-returned text: the first
/// line goes if it is a code fence, then the last line if it is one, and
/// the remaining lines are joined back with newlines.
pub fn clean_markdown(text: &str) -> (r: String)
    ensures
        r@ == spec_clean_markdown(text@),
{
    let mut lines = split_lines(text);
    if lines.len() == 0 {
        let r = String::new();
        assert(r@ =~~= spec_clean_markdown(text@));
        return r;
    }
    if is_fence(lines[0].as_str()) {
        let ghost prev = lines.deep_view();
        let _ = lines.remove(0);
        proof {
            assert(lines.deep_view() =~~= prev.drop_first());
        }
    }
    if lines.len() > 0 {
        let last = lines.len() - 1;
        if is_fence(lines[last].as_str()) {
            let ghost prev = lines.deep_view();
            let _ = lines.pop();
            proof {
                assert(lines.deep_view() =~~= prev.drop_last());
            }
        }
    }
    join_lines(&lines)
}

/// A failed AI call, rendered as the literal text that replaces the buffer,
/// so the user sees the failure in place.
pub fn format_ai_error(msg: &str) -> (r: String)
    ensures
        r@ == "Error: "@ + msg@,
{
    let mut r = String::from_str("Error: ");
    r.append(msg);
    r
}

} // verus!
