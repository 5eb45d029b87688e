use ws_transport::meeting::{
    MeetingApp, MeetingDetected, MeetingEvent, ScheduledMeeting, Timestamp,
};
use ws_transport::notification::{decimal_text, Notification};
use ws_transport::routine::{
    handle_meeting_event, init, Command, CommandKind, Occasion, Progress, Question, Reply, Routine,
    Stage, DEFAULT_CONFIDENCE_THRESHOLD_PERCENT,
};

fn detected(window_title: Option<&str>) -> MeetingEvent {
    MeetingEvent::AdHocMeetingDetected(MeetingDetected {
        app: MeetingApp { name: "Zoom".to_string(), bundle_id: "us.zoom.xos".to_string() },
        window_title: window_title.map(|title| title.to_string()),
        confidence_percent: "85".to_string(),
    })
}

fn scheduled() -> ScheduledMeeting {
    ScheduledMeeting {
        id: "evt-1".to_string(),
        title: "Weekly sync".to_string(),
        start_time: Timestamp { secs: 1_700_000_000, nanos: 0 },
        end_time: Timestamp { secs: 1_700_003_600, nanos: 0 },
        participants: vec!["Ada".to_string()],
        is_upcoming: true,
    }
}

/// What the caller is told to do in the course of a routine.
#[derive(Debug, PartialEq)]
enum Told {
    Asked(Question),
    Ran(Command),
}

/// Runs a routine with the replies given, one for each question or command,
/// and returns what the caller was told, and whether the routine finished
/// (`Some(true)`), failed (`Some(false)`) or is still under way (`None`).
fn exchange(start: Progress, replies: &[Reply]) -> (Vec<Told>, Option<bool>) {
    let mut told = Vec::new();
    let mut progress = start;
    let mut replies = replies.iter();
    loop {
        let routine: Routine = match progress {
            Progress::Ask(routine, question) => {
                assert_eq!(routine.waiting_for(), Stage::Asking(question));
                told.push(Told::Asked(question));
                routine
            }
            Progress::Run(routine, command) => {
                assert_eq!(routine.waiting_for(), Stage::Awaiting(command.kind()));
                told.push(Told::Ran(command));
                routine
            }
            Progress::Finished => return (told, Some(true)),
            Progress::Failed => return (told, Some(false)),
        };
        match replies.next() {
            Some(reply) => progress = routine.resume(*reply),
            None => return (told, None),
        }
    }
}

#[test]
fn default_confidence_threshold() {
    assert_eq!(DEFAULT_CONFIDENCE_THRESHOLD_PERCENT, 70);
}

#[test]
fn decimal_text_of_numbers() {
    assert_eq!(decimal_text(0), "0");
    assert_eq!(decimal_text(7), "7");
    assert_eq!(decimal_text(10), "10");
    assert_eq!(decimal_text(15), "15");
    assert_eq!(decimal_text(1234567890), "1234567890");
    assert_eq!(decimal_text(u64::MAX), "18446744073709551615");
}

#[test]
fn detected_notification_with_window_title() {
    let notice = Notification::detected("Zoom", Some("Standup"), "85", "us.zoom.xos");
    assert_eq!(
        notice,
        Notification {
            title: "Meeting detected - Click to start recording".to_string(),
            message: "Detected Zoom meeting (Standup). (Confidence: 85%)".to_string(),
            url: Some(
                "hypr://app/new?record=true&source=auto-detected&app=us.zoom.xos".to_string()
            ),
            timeout_secs: Some(15),
        }
    );
}

#[test]
fn detected_notification_without_window_title() {
    let notice = Notification::detected("Teams", None, "100", "com.microsoft.teams");
    assert_eq!(notice.message, "Detected Teams meeting. (Confidence: 100%)");
    assert_eq!(
        notice.url.as_deref(),
        Some("hypr://app/new?record=true&source=auto-detected&app=com.microsoft.teams")
    );
}

#[test]
fn starting_notification() {
    assert_eq!(
        Notification::starting("Weekly sync"),
        Notification {
            title: "Meeting is about to begin!".to_string(),
            message: "'Weekly sync' is starting. Preparing to start recording...".to_string(),
            url: Some("hypr://app/new?record=true".to_string()),
            timeout_secs: Some(15),
        }
    );
}

#[test]
fn ended_notification() {
    assert_eq!(
        Notification::ended("Weekly sync"),
        Notification {
            title: "Meeting ended".to_string(),
            message: "'Weekly sync' has ended. Recording stopped.".to_string(),
            url: Some("hypr://app".to_string()),
            timeout_secs: Some(8),
        }
    );
}

#[test]
fn upcoming_notification() {
    assert_eq!(
        Notification::upcoming("Weekly sync", 5),
        Notification {
            title: "Meeting in 5 minutes".to_string(),
            message: "'Weekly sync' is scheduled to begin soon. Get ready!".to_string(),
            url: Some("hypr://app/new?record=true".to_string()),
            timeout_secs: Some(10),
        }
    );
    assert_eq!(Notification::upcoming("x", 120).title, "Meeting in 120 minutes");
}

#[test]
fn ad_hoc_meeting_is_ignored_when_the_setting_is_off() {
    let (told, end) = exchange(handle_meeting_event(detected(None)), &[Reply::Flag(false)]);
    assert_eq!(told, vec![Told::Asked(Question::AutoRecordOnAdHoc)]);
    assert_eq!(end, Some(true));
}

#[test]
fn ad_hoc_meeting_fails_when_the_setting_cannot_be_read() {
    let (told, end) = exchange(handle_meeting_event(detected(None)), &[Reply::Unavailable]);
    assert_eq!(told, vec![Told::Asked(Question::AutoRecordOnAdHoc)]);
    assert_eq!(end, Some(false));
}

#[test]
fn ad_hoc_meeting_below_the_threshold_is_skipped() {
    let (told, end) =
        exchange(handle_meeting_event(detected(None)), &[Reply::Flag(true), Reply::Flag(false)]);
    assert_eq!(
        told,
        vec![
            Told::Asked(Question::AutoRecordOnAdHoc),
            Told::Asked(Question::ConfidenceReachesThreshold)
        ]
    );
    assert_eq!(end, Some(true));
}

#[test]
fn ad_hoc_meeting_notifies_and_leaves_the_recording_to_the_user() {
    let replies = [Reply::Flag(true), Reply::Flag(true), Reply::Flag(true), Reply::Done];
    let (told, end) = exchange(handle_meeting_event(detected(Some("Standup"))), &replies);
    assert_eq!(
        told,
        vec![
            Told::Asked(Question::AutoRecordOnAdHoc),
            Told::Asked(Question::ConfidenceReachesThreshold),
            Told::Asked(Question::NotifyBeforeMeeting),
            Told::Ran(Command::Notify(Notification::detected(
                "Zoom",
                Some("Standup"),
                "85",
                "us.zoom.xos"
            ))),
        ]
    );
    assert_eq!(end, Some(true));
}

#[test]
fn ad_hoc_meeting_starts_recording_without_notifications() {
    let replies = [Reply::Flag(true), Reply::Flag(true), Reply::Flag(false), Reply::Done];
    let (told, end) = exchange(handle_meeting_event(detected(None)), &replies);
    assert_eq!(told.last(), Some(&Told::Ran(Command::TriggerRecording("us.zoom.xos".to_string()))));
    assert_eq!(told.len(), 4);
    assert_eq!(end, Some(true));
}

#[test]
fn ad_hoc_meeting_fails_when_the_recording_does_not_start() {
    let replies = [Reply::Flag(true), Reply::Flag(true), Reply::Flag(false), Reply::Failed];
    let (_, end) = exchange(handle_meeting_event(detected(None)), &replies);
    assert_eq!(end, Some(false));
}

#[test]
fn ad_hoc_meeting_fails_when_notifications_cannot_be_read() {
    let replies = [Reply::Flag(true), Reply::Flag(true), Reply::Unavailable];
    let (told, end) = exchange(handle_meeting_event(detected(None)), &replies);
    assert_eq!(told.len(), 3);
    assert_eq!(end, Some(false));
}

#[test]
fn scheduled_meeting_starting_notifies_then_records() {
    let event = MeetingEvent::ScheduledMeetingStarting(scheduled());
    let replies = [Reply::Flag(true), Reply::Flag(true), Reply::Done, Reply::Done];
    let (told, end) = exchange(handle_meeting_event(event), &replies);
    assert_eq!(
        told,
        vec![
            Told::Asked(Question::AutoRecordOnScheduled),
            Told::Asked(Question::NotifyBeforeMeeting),
            Told::Ran(Command::Notify(Notification::starting("Weekly sync"))),
            Told::Ran(Command::TriggerRecording("evt-1".to_string())),
        ]
    );
    assert_eq!(end, Some(true));
}

#[test]
fn scheduled_meeting_starting_records_without_notifications() {
    let event = MeetingEvent::ScheduledMeetingStarting(scheduled());
    let replies = [Reply::Flag(true), Reply::Flag(false), Reply::Done];
    let (told, end) = exchange(handle_meeting_event(event), &replies);
    assert_eq!(
        told,
        vec![
            Told::Asked(Question::AutoRecordOnScheduled),
            Told::Asked(Question::NotifyBeforeMeeting),
            Told::Ran(Command::TriggerRecording("evt-1".to_string())),
        ]
    );
    assert_eq!(end, Some(true));
}

#[test]
fn scheduled_meeting_starting_is_ignored_when_the_setting_is_off() {
    let event = MeetingEvent::ScheduledMeetingStarting(scheduled());
    let (told, end) = exchange(handle_meeting_event(event), &[Reply::Flag(false)]);
    assert_eq!(told, vec![Told::Asked(Question::AutoRecordOnScheduled)]);
    assert_eq!(end, Some(true));
}

#[test]
fn scheduled_meeting_starting_fails_when_the_recording_does_not_start() {
    let event = MeetingEvent::ScheduledMeetingStarting(scheduled());
    let replies = [Reply::Flag(true), Reply::Flag(false), Reply::Failed];
    let (_, end) = exchange(handle_meeting_event(event), &replies);
    assert_eq!(end, Some(false));
}

#[test]
fn scheduled_meeting_ended_stops_then_notifies() {
    let event = MeetingEvent::ScheduledMeetingEnded(scheduled());
    let replies = [Reply::Flag(true), Reply::Done, Reply::Done];
    let (told, end) = exchange(handle_meeting_event(event), &replies);
    assert_eq!(
        told,
        vec![
            Told::Asked(Question::AutoStopOnMeetingEnd),
            Told::Ran(Command::StopRecording("evt-1".to_string())),
            Told::Ran(Command::Notify(Notification::ended("Weekly sync"))),
        ]
    );
    assert_eq!(end, Some(true));
}

#[test]
fn scheduled_meeting_ended_stops_when_the_setting_cannot_be_read() {
    let event = MeetingEvent::ScheduledMeetingEnded(scheduled());
    let (told, end) = exchange(handle_meeting_event(event), &[Reply::Unavailable]);
    assert_eq!(told.last(), Some(&Told::Ran(Command::StopRecording("evt-1".to_string()))));
    assert_eq!(end, None);
}

#[test]
fn scheduled_meeting_ended_does_not_notify_when_the_stop_fails() {
    let event = MeetingEvent::ScheduledMeetingEnded(scheduled());
    let (told, end) = exchange(handle_meeting_event(event), &[Reply::Flag(true), Reply::Failed]);
    assert_eq!(told.len(), 2);
    assert_eq!(end, Some(false));
}

#[test]
fn scheduled_meeting_ended_keeps_recording_when_auto_stop_is_off() {
    let event = MeetingEvent::ScheduledMeetingEnded(scheduled());
    let (told, end) = exchange(handle_meeting_event(event), &[Reply::Flag(false)]);
    assert_eq!(told, vec![Told::Asked(Question::AutoStopOnMeetingEnd)]);
    assert_eq!(end, Some(true));
}

#[test]
fn scheduled_meeting_upcoming_notifies_with_the_minutes() {
    let event = MeetingEvent::ScheduledMeetingUpcoming(scheduled());
    let replies = [Reply::Flag(true), Reply::Number(5), Reply::Done];
    let (told, end) = exchange(handle_meeting_event(event), &replies);
    assert_eq!(
        told,
        vec![
            Told::Asked(Question::NotifyBeforeMeeting),
            Told::Asked(Question::MinutesBeforeNotification),
            Told::Ran(Command::Notify(Notification::upcoming("Weekly sync", 5))),
        ]
    );
    assert_eq!(end, Some(true));
}

#[test]
fn scheduled_meeting_upcoming_is_silent_without_notifications() {
    let event = MeetingEvent::ScheduledMeetingUpcoming(scheduled());
    let (told, end) = exchange(handle_meeting_event(event), &[Reply::Flag(false)]);
    assert_eq!(told, vec![Told::Asked(Question::NotifyBeforeMeeting)]);
    assert_eq!(end, Some(true));
}

#[test]
fn scheduled_meeting_upcoming_fails_when_the_minutes_cannot_be_read() {
    let event = MeetingEvent::ScheduledMeetingUpcoming(scheduled());
    let (_, end) = exchange(handle_meeting_event(event), &[Reply::Flag(true), Reply::Unavailable]);
    assert_eq!(end, Some(false));
}

#[test]
fn meeting_app_closed_stops_an_active_recording() {
    let event = MeetingEvent::MeetingAppClosed("us.zoom.xos".to_string());
    for first in [Reply::Flag(true), Reply::Unavailable] {
        let (told, end) = exchange(handle_meeting_event(event.clone()), &[first, Reply::Done]);
        assert_eq!(
            told,
            vec![
                Told::Asked(Question::AutoStopOnMeetingEnd),
                Told::Ran(Command::StopRecordingIfActive("us.zoom.xos".to_string())),
            ]
        );
        assert_eq!(end, Some(true));
    }
}

#[test]
fn meeting_app_closed_fails_when_the_stop_fails() {
    let event = MeetingEvent::MeetingAppClosed("us.zoom.xos".to_string());
    let (_, end) = exchange(handle_meeting_event(event), &[Reply::Flag(true), Reply::Failed]);
    assert_eq!(end, Some(false));
}

#[test]
fn meeting_app_closed_does_nothing_when_auto_stop_is_off() {
    let event = MeetingEvent::MeetingAppClosed("us.zoom.xos".to_string());
    let (told, end) = exchange(handle_meeting_event(event), &[Reply::Flag(false)]);
    assert_eq!(told.len(), 1);
    assert_eq!(end, Some(true));
}

#[test]
fn startup_starts_the_monitor_when_enabled() {
    let (told, end) = exchange(init(), &[Reply::Flag(true), Reply::Done]);
    assert_eq!(
        told,
        vec![Told::Asked(Question::AutoRecordingEnabled), Told::Ran(Command::StartMonitor)]
    );
    assert_eq!(end, Some(true));
}

#[test]
fn startup_tolerates_a_monitor_that_does_not_start() {
    let (_, end) = exchange(init(), &[Reply::Flag(true), Reply::Failed]);
    assert_eq!(end, Some(true));
}

#[test]
fn startup_does_nothing_when_disabled_or_unreadable() {
    for reply in [Reply::Flag(false), Reply::Unavailable] {
        let (told, end) = exchange(init(), &[reply]);
        assert_eq!(told, vec![Told::Asked(Question::AutoRecordingEnabled)]);
        assert_eq!(end, Some(true));
    }
}

#[test]
fn reply_of_the_wrong_kind_fails_the_routine() {
    let (_, end) = exchange(init(), &[Reply::Number(3)]);
    assert_eq!(end, Some(false));
    let (_, end) = exchange(init(), &[Reply::Done]);
    assert_eq!(end, Some(false));
    let event = MeetingEvent::ScheduledMeetingUpcoming(scheduled());
    let (_, end) = exchange(handle_meeting_event(event), &[Reply::Flag(true), Reply::Flag(true)]);
    assert_eq!(end, Some(false));
}

#[test]
fn routine_begins_with_the_first_question_of_its_occasion() {
    match Routine::begin(Occasion::Startup) {
        Progress::Ask(routine, question) => {
            assert_eq!(question, Question::AutoRecordingEnabled);
            assert_eq!(routine.waiting_for(), Stage::Asking(Question::AutoRecordingEnabled));
        }
        _ => panic!("a routine begins with a question"),
    }
    assert_eq!(Command::StartMonitor.kind(), CommandKind::StartMonitor);
    assert_eq!(Command::TriggerRecording("a".to_string()).kind(), CommandKind::TriggerRecording);
    assert_eq!(Command::StopRecording("a".to_string()).kind(), CommandKind::StopRecording);
    assert_eq!(
        Command::StopRecordingIfActive("a".to_string()).kind(),
        CommandKind::StopRecordingIfActive
    );
    assert_eq!(Command::Notify(Notification::ended("a")).kind(), CommandKind::Notify);
}

#[test]
fn no_routine_takes_more_than_six_replies() {
    let replies = [Reply::Flag(true), Reply::Done, Reply::Number(1), Reply::Unavailable];
    let events = vec![
        detected(Some("t")),
        MeetingEvent::ScheduledMeetingStarting(scheduled()),
        MeetingEvent::ScheduledMeetingEnded(scheduled()),
        MeetingEvent::ScheduledMeetingUpcoming(scheduled()),
        MeetingEvent::MeetingAppClosed("b".to_string()),
    ];
    // Every sequence of six replies over the four kinds above.
    for event in events {
        for code in 0..4usize.pow(6) {
            let mut script = Vec::new();
            let mut rest = code;
            for _ in 0..6 {
                script.push(replies[rest % 4]);
                rest /= 4;
            }
            let (_, end) = exchange(handle_meeting_event(event.clone()), &script);
            assert!(end.is_some());
        }
    }
}
