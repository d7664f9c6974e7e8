//! Properties that hold of every input, proved over the specifications that
//! the functions' own contracts use.
use crate::incident::{Incident, IncidentUpdate};
use crate::post::{built, is_latest, reports, BuildError, OutgoingPost};
use crate::text::{ellipsis, truncated, MAX_BODY_CHARS};
use vstd::prelude::*;

verus! {

/// At most one index holds the latest update: the choice among updates with
/// equal instants is fixed (the first in the list), so a build is
/// determined by its input.
pub proof fn lemma_latest_unique(updates: Seq<IncidentUpdate>, i: int, k: int)
    requires
        is_latest(updates, i),
        is_latest(updates, k),
    ensures
        i == k,
{
    if i < k {
        assert(updates[i].at.spec_before(updates[k].at));
    } else if k < i {
        assert(updates[k].at.spec_before(updates[i].at));
    }
}

/// When no two updates share an instant, the post built for an incident
/// reports the update whose instant is later than every other's.
pub proof fn lemma_build_picks_maximum(
    r: Result<OutgoingPost, BuildError>,
    incident: Incident,
    status: Seq<char>,
)
    requires
        incident.updates@.len() > 0,
        forall|a: int, b: int|
            0 <= a < incident.updates@.len() && 0 <= b < incident.updates@.len() && a != b
                ==> #[trigger] incident.updates@[a].at != #[trigger] incident.updates@[b].at,
        built(r, incident, status),
    ensures
        r matches Ok(post) && exists|i: int|
            0 <= i < incident.updates@.len()
            && reports(post, incident, status, i)
            && forall|j: int| 0 <= j < incident.updates@.len() && j != i
                ==> (#[trigger] incident.updates@[j].at).spec_before(incident.updates@[i].at),
{
    let post = r->Ok_0;
    let i = choose|i: int| is_latest(incident.updates@, i) && reports(post, incident, status, i);
    assert forall|j: int| 0 <= j < incident.updates@.len() && j != i implies
        (#[trigger] incident.updates@[j].at).spec_before(incident.updates@[i].at) by {
        assert(!incident.updates@[i].at.spec_before(incident.updates@[j].at));
        assert(incident.updates@[i].at != incident.updates@[j].at);
    }
}

/// A body that fits the budget is shown exactly as it is, with no ellipsis.
pub proof fn lemma_short_body_unchanged(body: Seq<char>)
    requires
        body.len() <= MAX_BODY_CHARS,
    ensures
        truncated(body) == body,
{
}

/// A body over the budget is shown as its first `MAX_BODY_CHARS` characters
/// followed by the three-character ellipsis, and nothing else.
pub proof fn lemma_long_body_cut(body: Seq<char>)
    requires
        body.len() > MAX_BODY_CHARS,
    ensures
        ellipsis().len() == 3,
        truncated(body).len() == MAX_BODY_CHARS + 3,
        truncated(body).subrange(0, MAX_BODY_CHARS as int) == body.subrange(0, MAX_BODY_CHARS as int),
        truncated(body).subrange(MAX_BODY_CHARS as int, MAX_BODY_CHARS + 3) == ellipsis(),
{
    let t = truncated(body);
    assert(t.subrange(0, MAX_BODY_CHARS as int) =~= body.subrange(0, MAX_BODY_CHARS as int));
    assert(t.subrange(MAX_BODY_CHARS as int, MAX_BODY_CHARS + 3) =~= ellipsis());
}

} // verus!
