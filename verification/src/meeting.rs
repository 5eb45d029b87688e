//! Meetings as the detector reports them, as plain values.

use vstd::prelude::*;

verus! {

/// A point in time: seconds since the Unix epoch and the nanoseconds within
/// the second. Two points in time compare by the seconds first. Within a leap
/// second the nanoseconds go on counting, from a billion up.
#[derive(Debug, Clone, Copy, PartialEq, Eq, Structural)]
pub struct Timestamp {
    pub secs: i64,
    pub nanos: u32,
}

/// An application in which meetings take place.
#[derive(Debug, Clone, PartialEq, Eq)]
pub struct MeetingApp {
    pub name: String,
    pub bundle_id: String,
}

/// A meeting that was detected on the screen, outside any schedule.
///
/// How sure the detector is comes as text: the percentage, rounded to a whole
/// number, as it is shown to the user.
#[derive(Debug, Clone, PartialEq, Eq)]
pub struct MeetingDetected {
    pub app: MeetingApp,
    pub window_title: Option<String>,
    pub confidence_percent: String,
}

/// A meeting from the calendar.
#[derive(Debug, Clone, PartialEq, Eq)]
pub struct ScheduledMeeting {
    pub id: String,
    pub title: String,
    pub start_time: Timestamp,
    pub end_time: Timestamp,
    pub participants: Vec<String>,
    pub is_upcoming: bool,
}

/// What the detector reports.
#[derive(Debug, Clone, PartialEq, Eq)]
pub enum MeetingEvent {
    AdHocMeetingDetected(MeetingDetected),
    ScheduledMeetingStarting(ScheduledMeeting),
    ScheduledMeetingEnded(ScheduledMeeting),
    ScheduledMeetingUpcoming(ScheduledMeeting),
    MeetingAppClosed(String),
}

impl Timestamp {
    /// Whether this point in time lies after `other`.
    pub open spec fn after(self, other: Timestamp) -> bool {
        self.secs > other.secs || (self.secs == other.secs && self.nanos > other.nanos)
    }

    /// Whether this point in time lies after `other`.
    pub fn is_after(&self, other: &Timestamp) -> (after: bool)
        ensures
            after == self.after(*other),
    {
        self.secs > other.secs || (self.secs == other.secs && self.nanos > other.nanos)
    }
}

} // verus!
