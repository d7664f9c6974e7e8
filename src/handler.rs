//! What one webhook delivery asks for, from its payload to the action.
use crate::incident::{parse_event, EventRecord, Incident, ParseError};
use crate::post::{built, decide, Action, BuildError};
use crate::text::title_case_of;
use vstd::prelude::*;

verus! {

/// Why a delivery fails.
#[derive(Clone, Copy, Debug, PartialEq, Eq, Structural)]
pub enum HandleError {
    Parse(ParseError),
    Build(BuildError),
}

/// `r` is what a delivery with `payload` asks for: a decoding error, a skip
/// for an absent or backfilled incident, or the post for the incident.
pub open spec fn handled(payload: Option<EventRecord>, r: Result<Action, HandleError>) -> bool {
    match payload {
        None => r matches Err(HandleError::Parse(ParseError::Empty)),
        Some(p) => if !p.well_formed() {
            r matches Err(HandleError::Parse(ParseError::Malformed))
        } else {
            match p.incident {
                None => r matches Ok(Action::SkipNoIncident),
                Some(rec) => if rec.backfilled {
                    r matches Ok(Action::SkipBackfilled)
                } else if rec.incident_updates@.len() == 0 {
                    r matches Err(HandleError::Build(BuildError::NoUpdates))
                } else {
                    r matches Ok(Action::Publish(post)) && exists|inc: Incident|
                        inc.decodes(rec) && #[trigger] built(Ok(post), inc, title_case_of(rec.status@))
                },
            }
        },
    }
}

/// Decodes a payload and decides what it asks for. Only a `Publish` action
/// calls for a post to be sent.
pub fn handle_payload(payload: Option<EventRecord>) -> (r: Result<Action, HandleError>)
    ensures
        handled(payload, r),
{
    match parse_event(payload) {
        Err(e) => Err(HandleError::Parse(e)),
        Ok(event) => {
            let r = decide(&event);
            match r {
                Ok(a) => Ok(a),
                Err(e) => Err(HandleError::Build(e)),
            }
        },
    }
}

} // verus!
