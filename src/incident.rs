//! The incident an event carries, as received and as decoded.
use atrium_api::types::string::Datetime;
use vstd::prelude::*;

verus! {

/// An instant: whole seconds since the Unix epoch and the nanoseconds past
/// them.
#[derive(Clone, Copy, Debug, PartialEq, Eq, Structural)]
pub struct Timestamp {
    pub secs: i64,
    pub nanos: u32,
}

impl Timestamp {
    /// `self` comes strictly before `other`.
    pub open spec fn spec_before(self, other: Timestamp) -> bool {
        self.secs < other.secs || (self.secs == other.secs && self.nanos < other.nanos)
    }

    pub fn before(&self, other: &Timestamp) -> (r: bool)
        ensures
            r == self.spec_before(*other),
    {
        self.secs < other.secs || (self.secs == other.secs && self.nanos < other.nanos)
    }
}

/// The instant that a Lexicon timestamp text denotes, as (seconds,
/// nanoseconds), or `None` for a text that is not one.
pub uninterp spec fn instant_of(text: Seq<char>) -> Option<(int, int)>;

pub open spec fn opt_instant(t: Option<Timestamp>) -> Option<(int, int)> {
    match t {
        Some(t) => Some((t.secs as int, t.nanos as int)),
        None => None,
    }
}

/// Relies on atrium_api's `Datetime::from_str`, which accepts an ISO 8601
/// timestamp with an explicit offset; the instant it parsed is read back as
/// Unix seconds and sub-second nanoseconds. The result depends on the text
/// alone.
#[verifier::external_body]
fn parse_instant(text: &str) -> (r: Option<Timestamp>)
    ensures
        opt_instant(r) == instant_of(text@),
{
    match text.parse::<Datetime>() {
        Ok(dt) => Some(Timestamp { secs: dt.as_ref().timestamp(), nanos: dt.as_ref().timestamp_subsec_nanos() }),
        Err(_) => None,
    }
}

/// One update of an incident as the webhook delivers it.
pub struct UpdateRecord {
    pub body: String,
    pub display_at: String,
}

/// An incident as the webhook delivers it.
pub struct IncidentRecord {
    pub backfilled: bool,
    pub status: String,
    pub shortlink: String,
    pub name: String,
    pub incident_updates: Vec<UpdateRecord>,
}

/// A webhook event as delivered; the incident may be absent.
pub struct EventRecord {
    pub incident: Option<IncidentRecord>,
}

/// One decoded update: its text, the timestamp text it came with, and the
/// instant that text denotes.
pub struct IncidentUpdate {
    pub body: String,
    pub display_at: String,
    pub at: Timestamp,
}

/// A decoded incident. The order of `updates` carries no meaning.
pub struct Incident {
    pub name: String,
    pub status: String,
    pub shortlink: String,
    pub backfilled: bool,
    pub updates: Vec<IncidentUpdate>,
}

/// A decoded event.
pub struct IncomingEvent {
    pub incident: Option<Incident>,
}

/// Why a payload could not be decoded.
#[derive(Clone, Copy, Debug, PartialEq, Eq, Structural)]
pub enum ParseError {
    /// No payload at all.
    Empty,
    /// A payload that does not have the expected shape.
    Malformed,
}

impl UpdateRecord {
    /// Every field of the record can be decoded.
    pub open spec fn well_formed(self) -> bool {
        instant_of(self.display_at@) is Some
    }
}

impl IncidentUpdate {
    /// `self` is what `rec` decodes to.
    pub open spec fn decodes(self, rec: UpdateRecord) -> bool {
        &&& self.body@ == rec.body@
        &&& self.display_at@ == rec.display_at@
        &&& instant_of(rec.display_at@) == Some((self.at.secs as int, self.at.nanos as int))
    }
}

impl IncidentRecord {
    pub open spec fn well_formed(self) -> bool {
        forall|i: int| 0 <= i < self.incident_updates@.len() ==> #[trigger] self.incident_updates@[i].well_formed()
    }
}

impl Incident {
    /// `self` is what `rec` decodes to: same fields, updates decoded in order.
    pub open spec fn decodes(self, rec: IncidentRecord) -> bool {
        &&& self.name@ == rec.name@
        &&& self.status@ == rec.status@
        &&& self.shortlink@ == rec.shortlink@
        &&& self.backfilled == rec.backfilled
        &&& self.updates@.len() == rec.incident_updates@.len()
        &&& forall|i: int| 0 <= i < self.updates@.len() ==> #[trigger] self.updates@[i].decodes(rec.incident_updates@[i])
    }
}

impl IncomingEvent {
    pub open spec fn decodes(self, rec: EventRecord) -> bool {
        match (self.incident, rec.incident) {
            (None, None) => true,
            (Some(i), Some(r)) => i.decodes(r),
            _ => false,
        }
    }
}

impl EventRecord {
    pub open spec fn well_formed(self) -> bool {
        match self.incident {
            Some(r) => r.well_formed(),
            None => true,
        }
    }
}

/// Decodes one update record, or `None` where its timestamp is not one.
pub fn decode_update(rec: &UpdateRecord) -> (r: Option<IncidentUpdate>)
    ensures
        r is Some <==> rec.well_formed(),
        r matches Some(u) ==> u.decodes(*rec),
{
    match parse_instant(rec.display_at.as_str()) {
        Some(at) => Some(IncidentUpdate { body: rec.body.clone(), display_at: rec.display_at.clone(), at }),
        None => None,
    }
}

/// Decodes an incident record; fails where any update does not decode.
pub fn decode_incident(rec: &IncidentRecord) -> (r: Result<Incident, ParseError>)
    ensures
        r is Ok <==> rec.well_formed(),
        r matches Ok(inc) ==> inc.decodes(*rec),
        r matches Err(e) ==> e == ParseError::Malformed,
{
    let mut updates: Vec<IncidentUpdate> = Vec::new();
    let n = rec.incident_updates.len();
    let mut i: usize = 0;
    while i < n
        invariant
            n == rec.incident_updates@.len(),
            i <= n,
            updates@.len() == i,
            forall|j: int| 0 <= j < i ==> #[trigger] updates@[j].decodes(rec.incident_updates@[j]),
            forall|j: int| 0 <= j < i ==> #[trigger] rec.incident_updates@[j].well_formed(),
        decreases n - i,
    {
        match decode_update(&rec.incident_updates[i]) {
            Some(u) => updates.push(u),
            None => return Err(ParseError::Malformed),
        }
        i = i + 1;
    }
    Ok(Incident {
        name: rec.name.clone(),
        status: rec.status.clone(),
        shortlink: rec.shortlink.clone(),
        backfilled: rec.backfilled,
        updates,
    })
}

/// Decodes a webhook payload. No payload gives `Empty`; a payload whose
/// incident has an update with an unreadable timestamp gives `Malformed`.
pub fn parse_event(payload: Option<EventRecord>) -> (r: Result<IncomingEvent, ParseError>)
    ensures
        payload is None ==> r == Err::<IncomingEvent, ParseError>(ParseError::Empty),
        payload matches Some(p) ==> {
            &&& (r is Ok <==> p.well_formed())
            &&& (r matches Ok(ev) ==> ev.decodes(p))
            &&& (r matches Err(e) ==> e == ParseError::Malformed)
        },
{
    match payload {
        None => Err(ParseError::Empty),
        Some(p) => match p.incident {
            None => Ok(IncomingEvent { incident: None }),
            Some(rec) => match decode_incident(&rec) {
                Ok(inc) => Ok(IncomingEvent { incident: Some(inc) }),
                Err(e) => Err(e),
            },
        },
    }
}

} // verus!
