//! The errors of window handling, and how they are shown.

use vstd::prelude::*;
use vstd::string::StringExecFns;

verus! {

/// An error of window handling. The errors of the window system and of the
/// vibrancy effect are held by their text.
#[derive(Debug, Clone, PartialEq, Eq)]
pub enum Error {
    TauriError(String),
    WindowVibrancyError(String),
    MonitorNotFound,
}

impl Error {
    /// The text of the error: that of the error inside, where there is one.
    pub open spec fn text(self) -> Seq<char> {
        match self {
            Error::TauriError(text) => text@,
            Error::WindowVibrancyError(text) => text@,
            Error::MonitorNotFound => "monitor not found"@,
        }
    }

    /// The text of the error, as it is shown and as it is serialized.
    pub fn message(&self) -> (text: String)
        ensures
            text@ == self.text(),
    {
        match self {
            Error::TauriError(text) => text.clone(),
            Error::WindowVibrancyError(text) => text.clone(),
            Error::MonitorNotFound => String::from_str("monitor not found"),
        }
    }
}

} // verus!
