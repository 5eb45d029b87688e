//! The desktop notifications of automatic recording, as plain values.

use vstd::prelude::*;
use vstd::string::StringExecFns;

verus! {

/// A desktop notification: what it shows, where a click leads, and after how
/// many seconds it goes away.
#[derive(Debug, Clone, PartialEq, Eq)]
pub struct Notification {
    pub title: String,
    pub message: String,
    pub url: Option<String>,
    pub timeout_secs: Option<u64>,
}

/// The mathematical value of a [`Notification`].
pub struct NotificationView {
    pub title: Seq<char>,
    pub message: Seq<char>,
    pub url: Option<Seq<char>>,
    pub timeout_secs: Option<u64>,
}

impl View for Notification {
    type V = NotificationView;

    open spec fn view(&self) -> NotificationView {
        NotificationView {
            title: self.title@,
            message: self.message@,
            url: match self.url {
                Some(url) => Some(url@),
                None => None,
            },
            timeout_secs: self.timeout_secs,
        }
    }
}

/// The character of a decimal digit.
pub open spec fn digit(d: nat) -> char {
    if d == 0 {
        '0'
    } else if d == 1 {
        '1'
    } else if d == 2 {
        '2'
    } else if d == 3 {
        '3'
    } else if d == 4 {
        '4'
    } else if d == 5 {
        '5'
    } else if d == 6 {
        '6'
    } else if d == 7 {
        '7'
    } else if d == 8 {
        '8'
    } else {
        '9'
    }
}

/// A number in decimal, without sign and without leading zeros.
pub open spec fn decimal(n: nat) -> Seq<char>
    decreases n,
{
    if n < 10 {
        seq![digit(n)]
    } else {
        decimal(n / 10).push(digit(n % 10))
    }
}

fn digit_text(d: u64) -> (text: &'static str)
    requires
        d < 10,
    ensures
        text@ == seq![digit(d as nat)],
{
    proof {
        reveal_strlit("0");
        reveal_strlit("1");
        reveal_strlit("2");
        reveal_strlit("3");
        reveal_strlit("4");
        reveal_strlit("5");
        reveal_strlit("6");
        reveal_strlit("7");
        reveal_strlit("8");
        reveal_strlit("9");
    }
    if d == 0 {
        "0"
    } else if d == 1 {
        "1"
    } else if d == 2 {
        "2"
    } else if d == 3 {
        "3"
    } else if d == 4 {
        "4"
    } else if d == 5 {
        "5"
    } else if d == 6 {
        "6"
    } else if d == 7 {
        "7"
    } else if d == 8 {
        "8"
    } else {
        "9"
    }
}

/// Writes a number in decimal.
pub fn decimal_text(n: u64) -> (text: String)
    ensures
        text@ == decimal(n as nat),
    decreases n,
{
    if n < 10 {
        String::from_str(digit_text(n))
    } else {
        let mut text = decimal_text(n / 10);
        text.append(digit_text(n % 10));
        text
    }
}

/// The notification for a meeting that was detected on the screen.
pub open spec fn detected_notice(
    app_name: Seq<char>,
    window_title: Option<Seq<char>>,
    confidence_percent: Seq<char>,
    bundle_id: Seq<char>,
) -> NotificationView {
    NotificationView {
        title: "Meeting detected - Click to start recording"@,
        message: "Detected "@ + app_name + " meeting"@ + (match window_title {
            Some(title) => " ("@ + title + ")"@,
            None => Seq::empty(),
        }) + ". (Confidence: "@ + confidence_percent + "%)"@,
        url: Some("hypr://app/new?record=true&source=auto-detected&app="@ + bundle_id),
        timeout_secs: Some(15u64),
    }
}

/// The notification for a scheduled meeting that is starting.
pub open spec fn starting_notice(title: Seq<char>) -> NotificationView {
    NotificationView {
        title: "Meeting is about to begin!"@,
        message: "'"@ + title + "' is starting. Preparing to start recording..."@,
        url: Some("hypr://app/new?record=true"@),
        timeout_secs: Some(15u64),
    }
}

/// The notification for a scheduled meeting that has ended.
pub open spec fn ended_notice(title: Seq<char>) -> NotificationView {
    NotificationView {
        title: "Meeting ended"@,
        message: "'"@ + title + "' has ended. Recording stopped."@,
        url: Some("hypr://app"@),
        timeout_secs: Some(8u64),
    }
}

/// The notification for a scheduled meeting that begins in `minutes`
/// minutes.
pub open spec fn upcoming_notice(title: Seq<char>, minutes: nat) -> NotificationView {
    NotificationView {
        title: "Meeting in "@ + decimal(minutes) + " minutes"@,
        message: "'"@ + title + "' is scheduled to begin soon. Get ready!"@,
        url: Some("hypr://app/new?record=true"@),
        timeout_secs: Some(10u64),
    }
}

impl Notification {
    /// The notification for a meeting that was detected on the screen: the
    /// name of the meeting app, the title of its window if it has one, and
    /// how sure the detector is, in percent.
    pub fn detected(
        app_name: &str,
        window_title: Option<&str>,
        confidence_percent: &str,
        bundle_id: &str,
    ) -> (notice: Notification)
        ensures
            notice@ == detected_notice(
                app_name@,
                match window_title {
                    Some(title) => Some(title@),
                    None => None,
                },
                confidence_percent@,
                bundle_id@,
            ),
    {
        let mut message = String::from_str("Detected ");
        message.append(app_name);
        message.append(" meeting");
        if let Some(title) = window_title {
            message.append(" (");
            message.append(title);
            message.append(")");
            assert(message@ =~= "Detected "@ + app_name@ + " meeting"@ + (" ("@ + title@ + ")"@));
        }
        message.append(". (Confidence: ");
        message.append(confidence_percent);
        message.append("%)");
        let mut url = String::from_str("hypr://app/new?record=true&source=auto-detected&app=");
        url.append(bundle_id);
        Notification {
            title: String::from_str("Meeting detected - Click to start recording"),
            message,
            url: Some(url),
            timeout_secs: Some(15),
        }
    }

    /// The notification for a scheduled meeting that is starting.
    pub fn starting(title: &str) -> (notice: Notification)
        ensures
            notice@ == starting_notice(title@),
    {
        let mut message = String::from_str("'");
        message.append(title);
        message.append("' is starting. Preparing to start recording...");
        Notification {
            title: String::from_str("Meeting is about to begin!"),
            message,
            url: Some(String::from_str("hypr://app/new?record=true")),
            timeout_secs: Some(15),
        }
    }

    /// The notification for a scheduled meeting that has ended.
    pub fn ended(title: &str) -> (notice: Notification)
        ensures
            notice@ == ended_notice(title@),
    {
        let mut message = String::from_str("'");
        message.append(title);
        message.append("' has ended. Recording stopped.");
        Notification {
            title: String::from_str("Meeting ended"),
            message,
            url: Some(String::from_str("hypr://app")),
            timeout_secs: Some(8),
        }
    }

    /// The notification for a scheduled meeting that begins in `minutes`
    /// minutes.
    pub fn upcoming(title: &str, minutes: u64) -> (notice: Notification)
        ensures
            notice@ == upcoming_notice(title@, minutes as nat),
    {
        let mut heading = String::from_str("Meeting in ");
        let number = decimal_text(minutes);
        heading.append(number.as_str());
        heading.append(" minutes");
        let mut message = String::from_str("'");
        message.append(title);
        message.append("' is scheduled to begin soon. Get ready!");
        Notification {
            title: heading,
            message,
            url: Some(String::from_str("hypr://app/new?record=true")),
            timeout_secs: Some(10),
        }
    }
}

} // verus!
