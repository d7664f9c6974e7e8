//! Text shaping for a post: the body budget and the status line.
use convert_case::{Case, Casing};
use vstd::prelude::*;

verus! {

/// The most characters of an update's body that a post carries.
pub const MAX_BODY_CHARS: usize = 250;

/// The marker appended to a body that was cut short.
pub open spec fn ellipsis() -> Seq<char> {
    seq!['.', '.', '.']
}

/// A body as a post shows it: unchanged when it fits the budget, otherwise
/// its first `MAX_BODY_CHARS` characters followed by the ellipsis.
pub open spec fn truncated(body: Seq<char>) -> Seq<char> {
    if body.len() <= MAX_BODY_CHARS {
        body
    } else {
        body.subrange(0, MAX_BODY_CHARS as int) + ellipsis()
    }
}

/// The line a post shows for an incident in a given (already formatted)
/// status, with an update body that was already truncated.
pub open spec fn status_line(status: Seq<char>, shown_body: Seq<char>) -> Seq<char> {
    "[update] "@ + status + ": "@ + shown_body
}

/// Cuts `body` to the budget, counting Unicode scalar values, and marks a cut
/// with the ellipsis.
pub fn truncate_body(body: &str) -> (r: String)
    ensures
        r@ == truncated(body@),
{
    let n = body.unicode_len();
    if n <= MAX_BODY_CHARS {
        String::from_str(body)
    } else {
        let mut r = String::from_str(body.substring_char(0, MAX_BODY_CHARS));
        r.append("...");
        proof {
            reveal_strlit("...");
            assert("..."@ =~= ellipsis());
        }
        r
    }
}

/// Builds the status line from a status that is already formatted for display
/// and a body that is already truncated.
pub fn compose_status_line(status: &str, shown_body: &str) -> (r: String)
    ensures
        r@ == status_line(status@, shown_body@),
{
    let mut r = String::from_str("[update] ");
    r.append(status);
    r.append(": ");
    r.append(shown_body);
    r
}

/// What convert_case makes of a string in title case.
pub uninterp spec fn title_case_of(s: Seq<char>) -> Seq<char>;

/// Relies on convert_case's `Casing::to_case` with `Case::Title`: each
/// space-delimited word gets an upper-case first letter and a lower-case rest.
/// The result depends on the characters of `s` alone.
#[verifier::external_body]
pub(crate) fn title_case(s: &str) -> (r: String)
    ensures
        r@ == title_case_of(s@),
{
    s.to_case(Case::Title)
}

} // verus!
