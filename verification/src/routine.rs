//! What automatic recording does when the detector reports a meeting, and
//! when the application has started.
//!
//! A routine is a short exchange with the caller. The routine asks for a
//! setting, the caller reads it and replies; the routine hands out a command,
//! the caller runs it and replies; until the routine is finished or has
//! failed. Reading settings, recording and showing notifications are the
//! caller's business; which of them happens, and in which order, is decided
//! here.

use crate::meeting::{MeetingDetected, MeetingEvent, ScheduledMeeting};
use crate::notification::{
    detected_notice, ended_notice, starting_notice, upcoming_notice, Notification,
    NotificationView,
};
use vstd::prelude::*;

verus! {

/// The confidence threshold, in percent, that applies where the setting
/// cannot be read.
pub const DEFAULT_CONFIDENCE_THRESHOLD_PERCENT: u64 = 70;

/// What a routine asks the caller.
#[derive(Debug, Clone, Copy, PartialEq, Eq, Structural)]
pub enum Question {
    /// Is automatic recording enabled?
    AutoRecordingEnabled,
    /// Are meetings that are detected on the screen recorded?
    AutoRecordOnAdHoc,
    /// Are scheduled meetings recorded?
    AutoRecordOnScheduled,
    /// Is the user notified before a recording starts?
    NotifyBeforeMeeting,
    /// Does a recording stop when its meeting ends?
    AutoStopOnMeetingEnd,
    /// How many minutes before a meeting is the user notified?
    MinutesBeforeNotification,
    /// Does the detector's confidence reach the threshold of the settings,
    /// or [`DEFAULT_CONFIDENCE_THRESHOLD_PERCENT`] where that cannot be read?
    ConfidenceReachesThreshold,
}

/// What the caller replies.
#[derive(Debug, Clone, Copy, PartialEq, Eq, Structural)]
pub enum Reply {
    /// The answer to a yes-or-no question.
    Flag(bool),
    /// The answer to a question for a number.
    Number(u64),
    /// The setting could not be read.
    Unavailable,
    /// The command was carried out.
    Done,
    /// The command failed.
    Failed,
}

/// What a routine tells the caller to do.
#[derive(Debug, Clone, PartialEq, Eq)]
pub enum Command {
    /// Show this notification.
    Notify(Notification),
    /// Start recording the meeting with this identifier.
    TriggerRecording(String),
    /// Stop recording the meeting with this identifier.
    StopRecording(String),
    /// Stop recording the meeting of this application, if one is recorded.
    StopRecordingIfActive(String),
    /// Start watching for meetings.
    StartMonitor,
}

/// The kind of a [`Command`].
#[derive(Debug, Clone, Copy, PartialEq, Eq, Structural)]
pub enum CommandKind {
    Notify,
    TriggerRecording,
    StopRecording,
    StopRecordingIfActive,
    StartMonitor,
}

/// The mathematical value of a [`Command`].
pub enum CommandView {
    Notify(NotificationView),
    TriggerRecording(Seq<char>),
    StopRecording(Seq<char>),
    StopRecordingIfActive(Seq<char>),
    StartMonitor,
}

impl View for Command {
    type V = CommandView;

    open spec fn view(&self) -> CommandView {
        match self {
            Command::Notify(notice) => CommandView::Notify(notice@),
            Command::TriggerRecording(id) => CommandView::TriggerRecording(id@),
            Command::StopRecording(id) => CommandView::StopRecording(id@),
            Command::StopRecordingIfActive(id) => CommandView::StopRecordingIfActive(id@),
            Command::StartMonitor => CommandView::StartMonitor,
        }
    }
}

impl CommandView {
    /// The kind of the command.
    pub open spec fn kind(self) -> CommandKind {
        match self {
            CommandView::Notify(_) => CommandKind::Notify,
            CommandView::TriggerRecording(_) => CommandKind::TriggerRecording,
            CommandView::StopRecording(_) => CommandKind::StopRecording,
            CommandView::StopRecordingIfActive(_) => CommandKind::StopRecordingIfActive,
            CommandView::StartMonitor => CommandKind::StartMonitor,
        }
    }
}

/// What a routine is about.
#[derive(Debug, Clone, PartialEq, Eq)]
pub enum Occasion {
    /// The detector reported a meeting.
    Meeting(MeetingEvent),
    /// The application has started.
    Startup,
}

/// What a routine is waiting for.
#[derive(Debug, Clone, Copy, PartialEq, Eq, Structural)]
pub enum Stage {
    /// The answer to a question.
    Asking(Question),
    /// The result of a command.
    Awaiting(CommandKind),
}

/// What the rules make of a reply.
pub enum Plan {
    /// Ask this next.
    Ask(Question),
    /// Run this next.
    Run(CommandView),
    /// The routine is finished.
    Finished,
    /// The routine has failed: a setting could not be read, a command failed,
    /// or the reply was not the one awaited.
    Failed,
}

/// The notification for a detected meeting.
pub open spec fn notice_of_detected(meeting: MeetingDetected) -> NotificationView {
    detected_notice(
        meeting.app.name@,
        match meeting.window_title {
            Some(title) => Some(title@),
            None => None,
        },
        meeting.confidence_percent@,
        meeting.app.bundle_id@,
    )
}

/// The rules for a meeting that was detected on the screen.
///
/// Nothing happens unless such meetings are recorded and the detector is
/// sure enough. Then the user is notified, if notifications are on, and the
/// recording is left to the user's click; else the recording starts.
pub open spec fn plan_ad_hoc(meeting: MeetingDetected, stage: Stage, reply: Reply) -> Plan {
    match (stage, reply) {
        (Stage::Asking(Question::AutoRecordOnAdHoc), Reply::Flag(true)) => Plan::Ask(
            Question::ConfidenceReachesThreshold,
        ),
        (Stage::Asking(Question::AutoRecordOnAdHoc), Reply::Flag(false)) => Plan::Finished,
        (Stage::Asking(Question::ConfidenceReachesThreshold), Reply::Flag(true)) => Plan::Ask(
            Question::NotifyBeforeMeeting,
        ),
        (Stage::Asking(Question::ConfidenceReachesThreshold), Reply::Flag(false)) => Plan::Finished,
        (Stage::Asking(Question::NotifyBeforeMeeting), Reply::Flag(true)) => Plan::Run(
            CommandView::Notify(notice_of_detected(meeting)),
        ),
        (Stage::Asking(Question::NotifyBeforeMeeting), Reply::Flag(false)) => Plan::Run(
            CommandView::TriggerRecording(meeting.app.bundle_id@),
        ),
        (Stage::Awaiting(CommandKind::Notify), Reply::Done) => Plan::Finished,
        (Stage::Awaiting(CommandKind::TriggerRecording), Reply::Done) => Plan::Finished,
        _ => Plan::Failed,
    }
}

/// The rules for a scheduled meeting that is starting.
///
/// Nothing happens unless scheduled meetings are recorded. Then the user is
/// notified, if notifications are on, and the recording starts either way.
pub open spec fn plan_starting(meeting: ScheduledMeeting, stage: Stage, reply: Reply) -> Plan {
    match (stage, reply) {
        (Stage::Asking(Question::AutoRecordOnScheduled), Reply::Flag(true)) => Plan::Ask(
            Question::NotifyBeforeMeeting,
        ),
        (Stage::Asking(Question::AutoRecordOnScheduled), Reply::Flag(false)) => Plan::Finished,
        (Stage::Asking(Question::NotifyBeforeMeeting), Reply::Flag(true)) => Plan::Run(
            CommandView::Notify(starting_notice(meeting.title@)),
        ),
        (Stage::Asking(Question::NotifyBeforeMeeting), Reply::Flag(false)) => Plan::Run(
            CommandView::TriggerRecording(meeting.id@),
        ),
        (Stage::Awaiting(CommandKind::Notify), Reply::Done) => Plan::Run(
            CommandView::TriggerRecording(meeting.id@),
        ),
        (Stage::Awaiting(CommandKind::TriggerRecording), Reply::Done) => Plan::Finished,
        _ => Plan::Failed,
    }
}

/// The rules for a scheduled meeting that has ended.
///
/// The recording stops, and the user is told so, unless the settings say
/// that recordings do not stop with their meetings. Where the setting cannot
/// be read, the recording stops.
pub open spec fn plan_ended(meeting: ScheduledMeeting, stage: Stage, reply: Reply) -> Plan {
    match (stage, reply) {
        (Stage::Asking(Question::AutoStopOnMeetingEnd), Reply::Flag(false)) => Plan::Finished,
        (Stage::Asking(Question::AutoStopOnMeetingEnd), Reply::Flag(true)) => Plan::Run(
            CommandView::StopRecording(meeting.id@),
        ),
        (Stage::Asking(Question::AutoStopOnMeetingEnd), Reply::Unavailable) => Plan::Run(
            CommandView::StopRecording(meeting.id@),
        ),
        (Stage::Awaiting(CommandKind::StopRecording), Reply::Done) => Plan::Run(
            CommandView::Notify(ended_notice(meeting.title@)),
        ),
        (Stage::Awaiting(CommandKind::Notify), Reply::Done) => Plan::Finished,
        _ => Plan::Failed,
    }
}

/// The rules for a scheduled meeting that begins soon: the user is notified,
/// if notifications are on.
pub open spec fn plan_upcoming(meeting: ScheduledMeeting, stage: Stage, reply: Reply) -> Plan {
    match (stage, reply) {
        (Stage::Asking(Question::NotifyBeforeMeeting), Reply::Flag(true)) => Plan::Ask(
            Question::MinutesBeforeNotification,
        ),
        (Stage::Asking(Question::NotifyBeforeMeeting), Reply::Flag(false)) => Plan::Finished,
        (Stage::Asking(Question::MinutesBeforeNotification), Reply::Number(minutes)) => Plan::Run(
            CommandView::Notify(upcoming_notice(meeting.title@, minutes as nat)),
        ),
        (Stage::Awaiting(CommandKind::Notify), Reply::Done) => Plan::Finished,
        _ => Plan::Failed,
    }
}

/// The rules for a meeting application that was closed: its recording stops,
/// unless the settings say that recordings do not stop with their meetings.
/// Where the setting cannot be read, the recording stops.
pub open spec fn plan_app_closed(bundle_id: String, stage: Stage, reply: Reply) -> Plan {
    match (stage, reply) {
        (Stage::Asking(Question::AutoStopOnMeetingEnd), Reply::Flag(false)) => Plan::Finished,
        (Stage::Asking(Question::AutoStopOnMeetingEnd), Reply::Flag(true)) => Plan::Run(
            CommandView::StopRecordingIfActive(bundle_id@),
        ),
        (Stage::Asking(Question::AutoStopOnMeetingEnd), Reply::Unavailable) => Plan::Run(
            CommandView::StopRecordingIfActive(bundle_id@),
        ),
        (Stage::Awaiting(CommandKind::StopRecordingIfActive), Reply::Done) => Plan::Finished,
        _ => Plan::Failed,
    }
}

/// The rules for the start of the application: the watch for meetings starts
/// if automatic recording is enabled. Where the setting cannot be read it
/// counts as disabled, and a watch that does not start is no failure of the
/// routine.
pub open spec fn plan_startup(stage: Stage, reply: Reply) -> Plan {
    match (stage, reply) {
        (Stage::Asking(Question::AutoRecordingEnabled), Reply::Flag(true)) => Plan::Run(
            CommandView::StartMonitor,
        ),
        (Stage::Asking(Question::AutoRecordingEnabled), Reply::Flag(false)) => Plan::Finished,
        (Stage::Asking(Question::AutoRecordingEnabled), Reply::Unavailable) => Plan::Finished,
        (Stage::Awaiting(CommandKind::StartMonitor), Reply::Done) => Plan::Finished,
        (Stage::Awaiting(CommandKind::StartMonitor), Reply::Failed) => Plan::Finished,
        _ => Plan::Failed,
    }
}

impl Occasion {
    /// The first question of the routine for this occasion.
    pub open spec fn first_question(self) -> Question {
        match self {
            Occasion::Meeting(MeetingEvent::AdHocMeetingDetected(_)) => Question::AutoRecordOnAdHoc,
            Occasion::Meeting(MeetingEvent::ScheduledMeetingStarting(_)) => {
                Question::AutoRecordOnScheduled
            },
            Occasion::Meeting(MeetingEvent::ScheduledMeetingEnded(_)) => {
                Question::AutoStopOnMeetingEnd
            },
            Occasion::Meeting(MeetingEvent::ScheduledMeetingUpcoming(_)) => {
                Question::NotifyBeforeMeeting
            },
            Occasion::Meeting(MeetingEvent::MeetingAppClosed(_)) => Question::AutoStopOnMeetingEnd,
            Occasion::Startup => Question::AutoRecordingEnabled,
        }
    }

    /// The rules of the routine for this occasion.
    pub open spec fn plan(self, stage: Stage, reply: Reply) -> Plan {
        match self {
            Occasion::Meeting(MeetingEvent::AdHocMeetingDetected(meeting)) => plan_ad_hoc(
                meeting,
                stage,
                reply,
            ),
            Occasion::Meeting(MeetingEvent::ScheduledMeetingStarting(meeting)) => plan_starting(
                meeting,
                stage,
                reply,
            ),
            Occasion::Meeting(MeetingEvent::ScheduledMeetingEnded(meeting)) => plan_ended(
                meeting,
                stage,
                reply,
            ),
            Occasion::Meeting(MeetingEvent::ScheduledMeetingUpcoming(meeting)) => plan_upcoming(
                meeting,
                stage,
                reply,
            ),
            Occasion::Meeting(MeetingEvent::MeetingAppClosed(bundle_id)) => plan_app_closed(
                bundle_id,
                stage,
                reply,
            ),
            Occasion::Startup => plan_startup(stage, reply),
        }
    }
}

/// What comes next in a routine.
#[derive(Debug, Clone, PartialEq, Eq)]
pub enum Next {
    /// This question.
    Ask(Question),
    /// This command.
    Run(Command),
    /// Nothing: the routine is finished.
    Finished,
    /// Nothing: the routine has failed.
    Failed,
}

impl View for Next {
    type V = Plan;

    open spec fn view(&self) -> Plan {
        match self {
            Next::Ask(question) => Plan::Ask(*question),
            Next::Run(command) => Plan::Run(command@),
            Next::Finished => Plan::Finished,
            Next::Failed => Plan::Failed,
        }
    }
}

impl Command {
    /// The kind of the command.
    pub fn kind(&self) -> (kind: CommandKind)
        ensures
            kind == self@.kind(),
    {
        match self {
            Command::Notify(_) => CommandKind::Notify,
            Command::TriggerRecording(_) => CommandKind::TriggerRecording,
            Command::StopRecording(_) => CommandKind::StopRecording,
            Command::StopRecordingIfActive(_) => CommandKind::StopRecordingIfActive,
            Command::StartMonitor => CommandKind::StartMonitor,
        }
    }
}

fn handle_ad_hoc_meeting_detected(
    meeting: &MeetingDetected,
    stage: Stage,
    reply: Reply,
) -> (next: Next)
    ensures
        next@ == plan_ad_hoc(*meeting, stage, reply),
{
    match (stage, reply) {
        (Stage::Asking(Question::AutoRecordOnAdHoc), Reply::Flag(true)) => Next::Ask(
            Question::ConfidenceReachesThreshold,
        ),
        (Stage::Asking(Question::AutoRecordOnAdHoc), Reply::Flag(false)) => Next::Finished,
        (Stage::Asking(Question::ConfidenceReachesThreshold), Reply::Flag(true)) => Next::Ask(
            Question::NotifyBeforeMeeting,
        ),
        (Stage::Asking(Question::ConfidenceReachesThreshold), Reply::Flag(false)) => Next::Finished,
        (Stage::Asking(Question::NotifyBeforeMeeting), Reply::Flag(true)) => {
            let window_title = match &meeting.window_title {
                Some(title) => Some(title.as_str()),
                None => None,
            };
            Next::Run(
                Command::Notify(
                    Notification::detected(
                        meeting.app.name.as_str(),
                        window_title,
                        meeting.confidence_percent.as_str(),
                        meeting.app.bundle_id.as_str(),
                    ),
                ),
            )
        },
        (Stage::Asking(Question::NotifyBeforeMeeting), Reply::Flag(false)) => Next::Run(
            Command::TriggerRecording(meeting.app.bundle_id.clone()),
        ),
        (Stage::Awaiting(CommandKind::Notify), Reply::Done) => Next::Finished,
        (Stage::Awaiting(CommandKind::TriggerRecording), Reply::Done) => Next::Finished,
        _ => Next::Failed,
    }
}

fn handle_scheduled_meeting_starting(
    meeting: &ScheduledMeeting,
    stage: Stage,
    reply: Reply,
) -> (next: Next)
    ensures
        next@ == plan_starting(*meeting, stage, reply),
{
    match (stage, reply) {
        (Stage::Asking(Question::AutoRecordOnScheduled), Reply::Flag(true)) => Next::Ask(
            Question::NotifyBeforeMeeting,
        ),
        (Stage::Asking(Question::AutoRecordOnScheduled), Reply::Flag(false)) => Next::Finished,
        (Stage::Asking(Question::NotifyBeforeMeeting), Reply::Flag(true)) => Next::Run(
            Command::Notify(Notification::starting(meeting.title.as_str())),
        ),
        (Stage::Asking(Question::NotifyBeforeMeeting), Reply::Flag(false)) => Next::Run(
            Command::TriggerRecording(meeting.id.clone()),
        ),
        (Stage::Awaiting(CommandKind::Notify), Reply::Done) => Next::Run(
            Command::TriggerRecording(meeting.id.clone()),
        ),
        (Stage::Awaiting(CommandKind::TriggerRecording), Reply::Done) => Next::Finished,
        _ => Next::Failed,
    }
}

fn handle_scheduled_meeting_ended(
    meeting: &ScheduledMeeting,
    stage: Stage,
    reply: Reply,
) -> (next: Next)
    ensures
        next@ == plan_ended(*meeting, stage, reply),
{
    match (stage, reply) {
        (Stage::Asking(Question::AutoStopOnMeetingEnd), Reply::Flag(false)) => Next::Finished,
        (Stage::Asking(Question::AutoStopOnMeetingEnd), Reply::Flag(true)) => Next::Run(
            Command::StopRecording(meeting.id.clone()),
        ),
        (Stage::Asking(Question::AutoStopOnMeetingEnd), Reply::Unavailable) => Next::Run(
            Command::StopRecording(meeting.id.clone()),
        ),
        (Stage::Awaiting(CommandKind::StopRecording), Reply::Done) => Next::Run(
            Command::Notify(Notification::ended(meeting.title.as_str())),
        ),
        (Stage::Awaiting(CommandKind::Notify), Reply::Done) => Next::Finished,
        _ => Next::Failed,
    }
}

fn handle_scheduled_meeting_upcoming(
    meeting: &ScheduledMeeting,
    stage: Stage,
    reply: Reply,
) -> (next: Next)
    ensures
        next@ == plan_upcoming(*meeting, stage, reply),
{
    match (stage, reply) {
        (Stage::Asking(Question::NotifyBeforeMeeting), Reply::Flag(true)) => Next::Ask(
            Question::MinutesBeforeNotification,
        ),
        (Stage::Asking(Question::NotifyBeforeMeeting), Reply::Flag(false)) => Next::Finished,
        (Stage::Asking(Question::MinutesBeforeNotification), Reply::Number(minutes)) => Next::Run(
            Command::Notify(Notification::upcoming(meeting.title.as_str(), minutes)),
        ),
        (Stage::Awaiting(CommandKind::Notify), Reply::Done) => Next::Finished,
        _ => Next::Failed,
    }
}

fn handle_meeting_app_closed(bundle_id: &String, stage: Stage, reply: Reply) -> (next: Next)
    ensures
        next@ == plan_app_closed(*bundle_id, stage, reply),
{
    match (stage, reply) {
        (Stage::Asking(Question::AutoStopOnMeetingEnd), Reply::Flag(false)) => Next::Finished,
        (Stage::Asking(Question::AutoStopOnMeetingEnd), Reply::Flag(true)) => Next::Run(
            Command::StopRecordingIfActive(bundle_id.clone()),
        ),
        (Stage::Asking(Question::AutoStopOnMeetingEnd), Reply::Unavailable) => Next::Run(
            Command::StopRecordingIfActive(bundle_id.clone()),
        ),
        (Stage::Awaiting(CommandKind::StopRecordingIfActive), Reply::Done) => Next::Finished,
        _ => Next::Failed,
    }
}

fn handle_startup(stage: Stage, reply: Reply) -> (next: Next)
    ensures
        next@ == plan_startup(stage, reply),
{
    match (stage, reply) {
        (Stage::Asking(Question::AutoRecordingEnabled), Reply::Flag(true)) => Next::Run(
            Command::StartMonitor,
        ),
        (Stage::Asking(Question::AutoRecordingEnabled), Reply::Flag(false)) => Next::Finished,
        (Stage::Asking(Question::AutoRecordingEnabled), Reply::Unavailable) => Next::Finished,
        (Stage::Awaiting(CommandKind::StartMonitor), Reply::Done) => Next::Finished,
        (Stage::Awaiting(CommandKind::StartMonitor), Reply::Failed) => Next::Finished,
        _ => Next::Failed,
    }
}

/// A routine under way.
#[derive(Debug, Clone, PartialEq, Eq)]
pub struct Routine {
    occasion: Occasion,
    stage: Stage,
}

/// Where a routine stands after a reply, and what the caller has to do.
#[derive(Debug, Clone, PartialEq, Eq)]
pub enum Progress {
    /// Read the setting and reply to the routine.
    Ask(Routine, Question),
    /// Run the command and reply to the routine.
    Run(Routine, Command),
    /// The routine is finished.
    Finished,
    /// The routine has failed. Where a setting could not be read or a command
    /// failed, the caller has the error at hand.
    Failed,
}

impl Progress {
    /// Whether this is where the plan leads a routine for `occasion`: the
    /// same question or command, and a routine that waits for its reply.
    pub open spec fn follows(self, plan: Plan, occasion: Occasion) -> bool {
        match self {
            Progress::Ask(routine, question) => {
                &&& plan == Plan::Ask(question)
                &&& routine.occasion() == occasion
                &&& routine.stage() == Stage::Asking(question)
            },
            Progress::Run(routine, command) => {
                &&& plan == Plan::Run(command@)
                &&& routine.occasion() == occasion
                &&& routine.stage() == Stage::Awaiting(command@.kind())
            },
            Progress::Finished => plan is Finished,
            Progress::Failed => plan is Failed,
        }
    }
}

impl Routine {
    /// What the routine is about.
    pub closed spec fn occasion(&self) -> Occasion {
        self.occasion
    }

    /// What the routine is waiting for.
    pub closed spec fn stage(&self) -> Stage {
        self.stage
    }

    /// What the routine is waiting for.
    pub fn waiting_for(&self) -> (stage: Stage)
        ensures
            stage == self.stage(),
    {
        self.stage
    }

    /// Begins the routine for an occasion with its first question.
    pub fn begin(occasion: Occasion) -> (progress: Progress)
        ensures
            progress.follows(Plan::Ask(occasion.first_question()), occasion),
    {
        let question = match &occasion {
            Occasion::Meeting(MeetingEvent::AdHocMeetingDetected(_)) => Question::AutoRecordOnAdHoc,
            Occasion::Meeting(MeetingEvent::ScheduledMeetingStarting(_)) => {
                Question::AutoRecordOnScheduled
            },
            Occasion::Meeting(MeetingEvent::ScheduledMeetingEnded(_)) => {
                Question::AutoStopOnMeetingEnd
            },
            Occasion::Meeting(MeetingEvent::ScheduledMeetingUpcoming(_)) => {
                Question::NotifyBeforeMeeting
            },
            Occasion::Meeting(MeetingEvent::MeetingAppClosed(_)) => Question::AutoStopOnMeetingEnd,
            Occasion::Startup => Question::AutoRecordingEnabled,
        };
        Progress::Ask(Routine { occasion, stage: Stage::Asking(question) }, question)
    }

    /// Takes the reply that the routine is waiting for and answers with what
    /// comes next, as [`Occasion::plan`] says.
    pub fn resume(self, reply: Reply) -> (progress: Progress)
        ensures
            progress.follows(self.occasion().plan(self.stage(), reply), self.occasion()),
    {
        let next = match &self.occasion {
            Occasion::Meeting(MeetingEvent::AdHocMeetingDetected(meeting)) => {
                handle_ad_hoc_meeting_detected(meeting, self.stage, reply)
            },
            Occasion::Meeting(MeetingEvent::ScheduledMeetingStarting(meeting)) => {
                handle_scheduled_meeting_starting(meeting, self.stage, reply)
            },
            Occasion::Meeting(MeetingEvent::ScheduledMeetingEnded(meeting)) => {
                handle_scheduled_meeting_ended(meeting, self.stage, reply)
            },
            Occasion::Meeting(MeetingEvent::ScheduledMeetingUpcoming(meeting)) => {
                handle_scheduled_meeting_upcoming(meeting, self.stage, reply)
            },
            Occasion::Meeting(MeetingEvent::MeetingAppClosed(bundle_id)) => {
                handle_meeting_app_closed(bundle_id, self.stage, reply)
            },
            Occasion::Startup => handle_startup(self.stage, reply),
        };
        match next {
            Next::Ask(question) => Progress::Ask(
                Routine { occasion: self.occasion, stage: Stage::Asking(question) },
                question,
            ),
            Next::Run(command) => {
                let kind = command.kind();
                Progress::Run(
                    Routine { occasion: self.occasion, stage: Stage::Awaiting(kind) },
                    command,
                )
            },
            Next::Finished => Progress::Finished,
            Next::Failed => Progress::Failed,
        }
    }
}

/// Begins the routine for a meeting that the detector reported.
pub fn handle_meeting_event(event: MeetingEvent) -> (progress: Progress)
    ensures
        progress.follows(
            Plan::Ask(Occasion::Meeting(event).first_question()),
            Occasion::Meeting(event),
        ),
{
    Routine::begin(Occasion::Meeting(event))
}

/// Begins the routine for the start of the application.
pub fn init() -> (progress: Progress)
    ensures
        progress.follows(Plan::Ask(Question::AutoRecordingEnabled), Occasion::Startup),
{
    Routine::begin(Occasion::Startup)
}

impl Stage {
    /// An upper bound on the replies that a routine still takes from this
    /// stage on.
    pub open spec fn replies_left(self) -> nat {
        match self {
            Stage::Asking(Question::AutoRecordOnAdHoc) => 6,
            Stage::Asking(Question::AutoRecordOnScheduled) => 5,
            Stage::Asking(Question::ConfidenceReachesThreshold) => 5,
            Stage::Asking(Question::NotifyBeforeMeeting) => 4,
            Stage::Asking(Question::AutoStopOnMeetingEnd) => 4,
            Stage::Asking(Question::MinutesBeforeNotification) => 3,
            Stage::Asking(Question::AutoRecordingEnabled) => 2,
            Stage::Awaiting(CommandKind::StopRecording) => 3,
            Stage::Awaiting(CommandKind::Notify) => 2,
            Stage::Awaiting(CommandKind::TriggerRecording) => 1,
            Stage::Awaiting(CommandKind::StopRecordingIfActive) => 1,
            Stage::Awaiting(CommandKind::StartMonitor) => 1,
        }
    }
}

impl Plan {
    /// The stage in which a plan leaves a routine, if it goes on.
    pub open spec fn stage(self) -> Option<Stage> {
        match self {
            Plan::Ask(question) => Some(Stage::Asking(question)),
            Plan::Run(command) => Some(Stage::Awaiting(command.kind())),
            _ => None,
        }
    }
}

/// Every reply brings a routine closer to its end: whatever the occasion and
/// the reply, the routine is over or has fewer replies left to take. So no
/// routine takes more than six replies.
pub proof fn lemma_reply_brings_the_end_closer(occasion: Occasion, stage: Stage, reply: Reply)
    ensures
        stage.replies_left() <= 6,
        match occasion.plan(stage, reply).stage() {
            Some(next) => next.replies_left() < stage.replies_left(),
            None => true,
        },
{
}

/// A recording is started only on the word of the settings: for a detected
/// meeting after notifications were found to be off, for a scheduled meeting
/// after the user was notified or notifications were found to be off.
pub proof fn lemma_recording_starts_on_settings_only(
    occasion: Occasion,
    stage: Stage,
    reply: Reply,
)
    requires
        occasion.plan(stage, reply) matches Plan::Run(command) && command is TriggerRecording,
    ensures
        occasion matches Occasion::Meeting(event) && (event is AdHocMeetingDetected || event
            is ScheduledMeetingStarting),
        (stage == Stage::Asking(Question::NotifyBeforeMeeting) && reply == Reply::Flag(false)) || (
        occasion matches Occasion::Meeting(event) && event is ScheduledMeetingStarting && stage
            == Stage::Awaiting(CommandKind::Notify) && reply == Reply::Done),
{
}

} // verus!
