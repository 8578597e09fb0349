//! What the supervisor has to tell its operator.
//!
//! The supervisor writes nothing itself: each step returns the notices that
//! belong to it, and the caller puts them on its console or log.

use crate::texts::{append_spaced, spaced, text_views};
use vstd::prelude::*;
use vstd::string::*;

verus! {

/// One line for the operator.
#[derive(Debug, PartialEq, Eq)]
pub enum Notice {
    /// The configuration resource could not be read.
    ConfigUnreadable { cause: String },
    /// The configuration resource is not a JSON document.
    ConfigMalformed { cause: String },
    /// No command is configured for this platform, so nothing is started.
    CommandEmpty,
    /// The backend is about to be spawned.
    Starting { command: String, arguments: Vec<String> },
    /// The backend was spawned.
    Started,
    /// The backend runs, but outside the job object meant to contain it.
    ContainmentFailed,
    /// The operating system refused to spawn the backend.
    SpawnFailed { cause: String },
    /// The backend was asked to terminate.
    Terminated,
    /// The termination request was refused.
    TerminationFailed { cause: String },
}

/// The mathematical content of a [`Notice`].
pub enum NoticeView {
    ConfigUnreadable { cause: Seq<char> },
    ConfigMalformed { cause: Seq<char> },
    CommandEmpty,
    Starting { command: Seq<char>, arguments: Seq<Seq<char>> },
    Started,
    ContainmentFailed,
    SpawnFailed { cause: Seq<char> },
    Terminated,
    TerminationFailed { cause: Seq<char> },
}

/// Whether a notice reports normal progress or something that went wrong.
#[derive(Clone, Copy, Debug, PartialEq, Eq, Structural)]
pub enum Severity {
    Info,
    Error,
}

impl View for Notice {
    type V = NoticeView;

    open spec fn view(&self) -> NoticeView {
        match self {
            Notice::ConfigUnreadable { cause } => NoticeView::ConfigUnreadable { cause: cause@ },
            Notice::ConfigMalformed { cause } => NoticeView::ConfigMalformed { cause: cause@ },
            Notice::CommandEmpty => NoticeView::CommandEmpty,
            Notice::Starting { command, arguments } => NoticeView::Starting {
                command: command@,
                arguments: text_views(arguments@),
            },
            Notice::Started => NoticeView::Started,
            Notice::ContainmentFailed => NoticeView::ContainmentFailed,
            Notice::SpawnFailed { cause } => NoticeView::SpawnFailed { cause: cause@ },
            Notice::Terminated => NoticeView::Terminated,
            Notice::TerminationFailed { cause } => NoticeView::TerminationFailed { cause: cause@ },
        }
    }
}

/// The content of each notice of `notices`, in order.
pub open spec fn notice_views(notices: Seq<Notice>) -> Seq<NoticeView> {
    Seq::new(notices.len(), |i: int| notices[i]@)
}

impl NoticeView {
    /// Progress is `Info`; every failure, and an empty command, is `Error`.
    pub open spec fn severity(self) -> Severity {
        match self {
            NoticeView::Starting { .. } | NoticeView::Started | NoticeView::Terminated => Severity::Info,
            _ => Severity::Error,
        }
    }

    /// The line that the operator reads.
    pub open spec fn message(self) -> Seq<char> {
        match self {
            NoticeView::ConfigUnreadable { cause } => "failed to read the backend configuration: "@
                + cause,
            NoticeView::ConfigMalformed { cause } => "failed to parse the backend configuration: "@
                + cause,
            NoticeView::CommandEmpty => "backend command is empty; check the configuration"@,
            NoticeView::Starting { command, arguments } => "starting backend: "@ + command + spaced(
                arguments,
            ),
            NoticeView::Started => "backend process started"@,
            NoticeView::ContainmentFailed => "backend runs outside its job object"@,
            NoticeView::SpawnFailed { cause } => "failed to start the backend process: "@ + cause,
            NoticeView::Terminated => "backend process terminated"@,
            NoticeView::TerminationFailed { cause } => "failed to terminate the backend process: "@
                + cause,
        }
    }
}

impl Notice {
    /// Whether the notice belongs on the error stream.
    pub fn severity(&self) -> (s: Severity)
        ensures
            s == self@.severity(),
    {
        match self {
            Notice::Starting { .. } | Notice::Started | Notice::Terminated => Severity::Info,
            _ => Severity::Error,
        }
    }

    /// Renders the notice as one line of text.
    pub fn message(&self) -> (line: String)
        ensures
            line@ == self@.message(),
    {
        match self {
            Notice::ConfigUnreadable { cause } => String::from_str(
                "failed to read the backend configuration: ",
            ).concat(cause.as_str()),
            Notice::ConfigMalformed { cause } => String::from_str(
                "failed to parse the backend configuration: ",
            ).concat(cause.as_str()),
            Notice::CommandEmpty => String::from_str(
                "backend command is empty; check the configuration",
            ),
            Notice::Starting { command, arguments } => {
                let mut line = String::from_str("starting backend: ").concat(command.as_str());
                append_spaced(&mut line, arguments);
                line
            },
            Notice::Started => String::from_str("backend process started"),
            Notice::ContainmentFailed => String::from_str("backend runs outside its job object"),
            Notice::SpawnFailed { cause } => String::from_str(
                "failed to start the backend process: ",
            ).concat(cause.as_str()),
            Notice::Terminated => String::from_str("backend process terminated"),
            Notice::TerminationFailed { cause } => String::from_str(
                "failed to terminate the backend process: ",
            ).concat(cause.as_str()),
        }
    }
}

} // verus!
