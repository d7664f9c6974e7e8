//! Building the post for an incident, and deciding what an event asks for.
use crate::incident::{Incident, IncidentUpdate, IncomingEvent};
use crate::text::{
    compose_status_line, status_line, title_case, title_case_of, truncate_body, truncated,
};
use vstd::prelude::*;

verus! {

/// The language tag every post carries.
pub open spec fn post_language() -> Seq<char> {
    seq!['e', 'n']
}

/// A link preview: the incident's name, the shown body, the incident's link.
pub struct Embed {
    pub title: String,
    pub description: String,
    pub uri: String,
}

/// A post ready to be published.
pub struct OutgoingPost {
    pub text: String,
    /// The timestamp text of the update the post reports.
    pub created_at: String,
    pub embed: Option<Embed>,
    pub langs: Vec<String>,
}

/// Why no post could be built.
#[derive(Clone, Copy, Debug, PartialEq, Eq, Structural)]
pub enum BuildError {
    /// The incident has no update to report.
    NoUpdates,
}

/// What an event asks of the caller.
pub enum Action {
    /// The event carries no incident: nothing to publish.
    SkipNoIncident,
    /// The incident is a replay of history: nothing to publish.
    SkipBackfilled,
    /// Publish this post.
    Publish(OutgoingPost),
}

/// Index `i` holds the latest update: none is later, and every update before
/// it is strictly earlier, so that among equal instants the first one in the
/// list wins.
pub open spec fn is_latest(updates: Seq<IncidentUpdate>, i: int) -> bool {
    &&& 0 <= i < updates.len()
    &&& forall|j: int| 0 <= j < updates.len() ==> !(#[trigger] updates[i].at.spec_before(updates[j].at))
    &&& forall|j: int| 0 <= j < i ==> (#[trigger] updates[j].at).spec_before(updates[i].at)
}

/// `post` is the post for `incident` reporting update `i`, with the status
/// shown as `status`.
pub open spec fn reports(post: OutgoingPost, incident: Incident, status: Seq<char>, i: int) -> bool {
    let update = incident.updates@[i];
    let shown = truncated(update.body@);
    &&& post.text@ == status_line(status, shown)
    &&& post.created_at@ == update.display_at@
    &&& post.embed matches Some(e) && {
        &&& e.title@ == incident.name@
        &&& e.description@ == shown
        &&& e.uri@ == incident.shortlink@
    }
    &&& post.langs@.len() == 1
    &&& post.langs@[0]@ == post_language()
}

/// `r` is the outcome of building the post for `incident` with the status
/// shown as `status`: the post for its latest update, or `NoUpdates`.
pub open spec fn built(r: Result<OutgoingPost, BuildError>, incident: Incident, status: Seq<char>) -> bool {
    if incident.updates@.len() == 0 {
        r == Err::<OutgoingPost, BuildError>(BuildError::NoUpdates)
    } else {
        r matches Ok(post) && exists|i: int| is_latest(incident.updates@, i) && reports(post, incident, status, i)
    }
}

/// Finds the latest update, the first one in the list among equal instants;
/// `None` for an empty list.
pub fn latest_index(updates: &Vec<IncidentUpdate>) -> (r: Option<usize>)
    ensures
        r is None <==> updates@.len() == 0,
        r matches Some(i) ==> is_latest(updates@, i as int),
{
    let n = updates.len();
    if n == 0 {
        return None;
    }
    let mut best: usize = 0;
    let mut k: usize = 1;
    while k < n
        invariant
            n == updates@.len(),
            1 <= k <= n,
            best < k,
            forall|j: int| 0 <= j < k ==> !updates@[best as int].at.spec_before(#[trigger] updates@[j].at),
            forall|j: int| 0 <= j < best ==> (#[trigger] updates@[j].at).spec_before(updates@[best as int].at),
        decreases n - k,
    {
        if updates[best].at.before(&updates[k].at) {
            best = k;
        }
        k = k + 1;
    }
    Some(best)
}

/// Builds the post for an incident whose status was already formatted for
/// display as `status`.
pub fn build_with_status(incident: &Incident, status: &str) -> (r: Result<OutgoingPost, BuildError>)
    ensures
        built(r, *incident, status@),
{
    match latest_index(&incident.updates) {
        None => Err(BuildError::NoUpdates),
        Some(i) => {
            let update = &incident.updates[i];
            let shown = truncate_body(update.body.as_str());
            let text = compose_status_line(status, shown.as_str());
            let embed = Embed {
                title: incident.name.clone(),
                description: shown,
                uri: incident.shortlink.clone(),
            };
            let mut langs: Vec<String> = Vec::new();
            langs.push(String::from_str("en"));
            proof {
                reveal_strlit("en");
                assert(langs@[0]@ =~= post_language());
            }
            let post = OutgoingPost { text, created_at: update.display_at.clone(), embed: Some(embed), langs };
            assert(reports(post, *incident, status@, i as int));
            Ok(post)
        },
    }
}

/// Builds the post for an incident: its latest update's body, cut to the
/// budget, under the incident's status in title case.
pub fn build(incident: &Incident) -> (r: Result<OutgoingPost, BuildError>)
    ensures
        built(r, *incident, title_case_of(incident.status@)),
{
    let status = title_case(incident.status.as_str());
    build_with_status(incident, status.as_str())
}

/// Decides what an event asks for: nothing where it has no incident or a
/// backfilled one, else the post for its incident.
pub fn decide(event: &IncomingEvent) -> (r: Result<Action, BuildError>)
    ensures
        match event.incident {
            None => r matches Ok(Action::SkipNoIncident),
            Some(inc) => if inc.backfilled {
                r matches Ok(Action::SkipBackfilled)
            } else {
                match r {
                    Ok(Action::Publish(post)) => built(Ok(post), inc, title_case_of(inc.status@)),
                    Err(e) => built(Err(e), inc, title_case_of(inc.status@)),
                    _ => false,
                }
            },
        },
{
    match &event.incident {
        None => Ok(Action::SkipNoIncident),
        Some(inc) => {
            if inc.backfilled {
                Ok(Action::SkipBackfilled)
            } else {
                match build(inc) {
                    Ok(post) => Ok(Action::Publish(post)),
                    Err(e) => Err(e),
                }
            }
        },
    }
}

} // verus!
