//! The meetings of the next day, made of the calendar's events and of what
//! is known of the people in them.

use crate::meeting::{ScheduledMeeting, Timestamp};
use vstd::prelude::*;
use vstd::string::StringExecFns;

verus! {

/// How many events are asked for at most.
pub const EVENT_LIMIT: u8 = 100;

/// How far ahead events are asked for, in seconds: a day.
pub const LOOKAHEAD_SECS: i64 = 86400;

/// The nanoseconds of a second.
pub const NANOS_PER_SEC: u32 = 1_000_000_000;

/// A person in the user's records.
#[derive(Debug, Clone, PartialEq, Eq)]
pub struct Human {
    pub id: String,
    pub full_name: Option<String>,
    pub email: Option<String>,
}

/// An event of the calendar.
#[derive(Debug, Clone, PartialEq, Eq)]
pub struct CalendarEvent {
    pub id: String,
    pub name: String,
    pub start_date: Timestamp,
    pub end_date: Timestamp,
}

/// Which events to ask the records for: those of one user that fall into a
/// span of time, and not more than a limit.
#[derive(Debug, Clone, PartialEq, Eq)]
pub struct EventFilter {
    pub user_id: String,
    pub limit: Option<u8>,
    pub start: Timestamp,
    pub end: Timestamp,
}

/// What the records say of the people in an event.
#[derive(Debug, Clone, PartialEq, Eq)]
pub enum ParticipantLookup {
    /// The event has a session, and these people take part in it.
    Found(Vec<Human>),
    /// The event has no session.
    NoSession,
    /// The session of the event could not be read.
    SessionUnavailable,
    /// The event has a session, but the people in it could not be read.
    ParticipantsUnavailable,
}

impl Human {
    /// How a person is shown: by the full name, else by the e-mail address,
    /// else by the identifier.
    pub open spec fn label(self) -> String {
        match self.full_name {
            Some(name) => name,
            None => match self.email {
                Some(email) => email,
                None => self.id,
            },
        }
    }

    /// How the person is shown.
    pub fn to_label(&self) -> (label: String)
        ensures
            label == self.label(),
    {
        match &self.full_name {
            Some(name) => name.clone(),
            None => match &self.email {
                Some(email) => email.clone(),
                None => self.id.clone(),
            },
        }
    }
}

/// How the people of a list are shown, in the order of the list.
pub open spec fn labels(humans: Seq<Human>) -> Seq<String> {
    Seq::new(humans.len(), |i: int| humans[i].label())
}

impl ParticipantLookup {
    /// The participants that a meeting is given: the people that were found,
    /// as they are shown, and nobody where none were found or the records
    /// could not be read.
    pub open spec fn participants(self) -> Seq<String> {
        match self {
            ParticipantLookup::Found(humans) => labels(humans@),
            _ => Seq::empty(),
        }
    }

    /// The participants that a meeting is given.
    pub fn to_participants(&self) -> (participants: Vec<String>)
        ensures
            participants@ == self.participants(),
    {
        let mut participants: Vec<String> = Vec::new();
        match self {
            ParticipantLookup::Found(humans) => {
                let mut i: usize = 0;
                while i < humans.len()
                    invariant
                        i <= humans.len(),
                        participants@ == labels(humans@.take(i as int)),
                    decreases humans.len() - i,
                {
                    participants.push(humans[i].to_label());
                    i += 1;
                }
            },
            _ => {},
        }
        participants
    }
}

/// Whether `meeting` is the meeting of the event `event`, with the
/// participants that the lookup gives, seen at the time `now`: it is upcoming
/// if it starts after `now`.
pub open spec fn is_meeting_of(
    meeting: ScheduledMeeting,
    event: CalendarEvent,
    lookup: ParticipantLookup,
    now: Timestamp,
) -> bool {
    &&& meeting.id == event.id
    &&& meeting.title == event.name
    &&& meeting.start_time == event.start_date
    &&& meeting.end_time == event.end_date
    &&& meeting.participants@ == lookup.participants()
    &&& meeting.is_upcoming == event.start_date.after(now)
}

/// The point in time a day after `now`. A day after a leap second lies in an
/// ordinary second.
pub open spec fn day_after(now: Timestamp) -> Timestamp {
    Timestamp {
        secs: (now.secs + LOOKAHEAD_SECS) as i64,
        nanos: if now.nanos >= NANOS_PER_SEC {
            (now.nanos - NANOS_PER_SEC) as u32
        } else {
            now.nanos
        },
    }
}

/// The filter for the events of a user between `now` and a day later.
pub open spec fn is_upcoming_filter(
    filter: EventFilter,
    user_id: Seq<char>,
    now: Timestamp,
) -> bool {
    &&& filter.user_id@ == user_id
    &&& filter.limit == Some(EVENT_LIMIT)
    &&& filter.start == now
    &&& filter.end == day_after(now)
}

/// Makes the filter for the events of a user between `now` and a day later,
/// [`EVENT_LIMIT`] of them at most.
pub fn upcoming_filter(user_id: &str, now: Timestamp) -> (filter: EventFilter)
    requires
        now.secs + LOOKAHEAD_SECS <= i64::MAX,
    ensures
        is_upcoming_filter(filter, user_id@, now),
{
    let nanos = if now.nanos >= NANOS_PER_SEC {
        now.nanos - NANOS_PER_SEC
    } else {
        now.nanos
    };
    EventFilter {
        user_id: String::from_str(user_id),
        limit: Some(EVENT_LIMIT),
        start: now,
        end: Timestamp { secs: now.secs + LOOKAHEAD_SECS, nanos },
    }
}

/// Makes the meeting of one event.
pub fn scheduled_meeting(
    event: &CalendarEvent,
    lookup: &ParticipantLookup,
    now: Timestamp,
) -> (meeting: ScheduledMeeting)
    ensures
        is_meeting_of(meeting, *event, *lookup, now),
{
    ScheduledMeeting {
        id: event.id.clone(),
        title: event.name.clone(),
        start_time: event.start_date,
        end_time: event.end_date,
        participants: lookup.to_participants(),
        is_upcoming: event.start_date.is_after(&now),
    }
}

/// Makes the meetings of the events that the records returned, one for each
/// event and in their order, each with what the records say of the people
/// in it.
pub fn get_upcoming_meetings(
    events: &Vec<(CalendarEvent, ParticipantLookup)>,
    now: Timestamp,
) -> (meetings: Vec<ScheduledMeeting>)
    ensures
        meetings@.len() == events@.len(),
        forall|i: int|
            0 <= i < events@.len() ==> is_meeting_of(
                #[trigger] meetings@[i],
                events@[i].0,
                events@[i].1,
                now,
            ),
{
    let mut meetings: Vec<ScheduledMeeting> = Vec::new();
    let mut i: usize = 0;
    while i < events.len()
        invariant
            i <= events.len(),
            meetings@.len() == i,
            forall|k: int|
                0 <= k < i ==> is_meeting_of(
                    #[trigger] meetings@[k],
                    events@[k].0,
                    events@[k].1,
                    now,
                ),
        decreases events.len() - i,
    {
        let meeting = scheduled_meeting(&events[i].0, &events[i].1, now);
        meetings.push(meeting);
        i += 1;
    }
    meetings
}

} // verus!
