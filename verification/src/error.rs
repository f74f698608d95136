//! Failures of a run, and the rule that decides which of them a retry loop
//! may swallow.

use vstd::prelude::*;
use vstd::string::StringExecFns;

verus! {

/// What went wrong in the browser session, as far as the interpreter needs to
/// tell failures apart.
#[derive(Clone, Copy, Debug, PartialEq, Eq, Structural)]
pub enum ErrorKind {
    /// No element matched a selector.
    NotFound,
    /// A bounded wait ran out.
    Timeout,
    /// A handle refers to an element that has left the page.
    StaleElement,
    /// The session id is no longer valid.
    SessionInvalid,
    /// The browser window no longer exists.
    WindowClosed,
    /// Any other protocol error.
    Other,
}

/// The kind that a WebDriver error code stands for.
pub open spec fn kind_of_code(code: Seq<char>) -> ErrorKind {
    if code == "no such window"@ {
        ErrorKind::WindowClosed
    } else if code == "invalid session id"@ {
        ErrorKind::SessionInvalid
    } else if code == "no such element"@ {
        ErrorKind::NotFound
    } else if code == "stale element reference"@ {
        ErrorKind::StaleElement
    } else if code == "timeout"@ || code == "script timeout"@ {
        ErrorKind::Timeout
    } else {
        ErrorKind::Other
    }
}

fn same_text(left: &str, right: &str) -> (same: bool)
    ensures
        same == (left@ == right@),
{
    String::from_str(left) == String::from_str(right)
}

impl ErrorKind {
    /// Tells the kinds apart by the error code of the WebDriver protocol,
    /// such as `"no such window"`.
    pub fn from_code(code: &str) -> (kind: ErrorKind)
        ensures
            kind == kind_of_code(code@),
    {
        if same_text(code, "no such window") {
            ErrorKind::WindowClosed
        } else if same_text(code, "invalid session id") {
            ErrorKind::SessionInvalid
        } else if same_text(code, "no such element") {
            ErrorKind::NotFound
        } else if same_text(code, "stale element reference") {
            ErrorKind::StaleElement
        } else if same_text(code, "timeout") || same_text(code, "script timeout") {
            ErrorKind::Timeout
        } else {
            ErrorKind::Other
        }
    }

    /// A session-fatal kind ends the run wherever it occurs.
    pub open spec fn spec_is_fatal(self) -> bool {
        self is SessionInvalid || self is WindowClosed
    }

    /// Whether no retry can recover from a failure of this kind.
    #[verifier::when_used_as_spec(spec_is_fatal)]
    pub fn is_fatal(self) -> (fatal: bool)
        ensures
            fatal == self.spec_is_fatal(),
    {
        match self {
            ErrorKind::SessionInvalid | ErrorKind::WindowClosed => true,
            _ => false,
        }
    }
}

/// A failure reported by the browser session.
#[derive(Clone, Debug, PartialEq, Eq)]
pub struct SessionError {
    pub kind: ErrorKind,
    pub message: String,
}

pub struct SessionErrorView {
    pub kind: ErrorKind,
    pub message: Seq<char>,
}

impl View for SessionError {
    type V = SessionErrorView;

    open spec fn view(&self) -> SessionErrorView {
        SessionErrorView { kind: self.kind, message: self.message@ }
    }
}

/// Why a run, or one pass through a loop body, stopped.
#[derive(Clone, Debug, PartialEq, Eq)]
pub enum RunError {
    /// A command that needs a selector has none.
    MissingSelector,
    /// `ChangeWindow` named an index past the last open window.
    WindowNotFound,
    /// The reply to an action was not of the shape the action calls for.
    UnexpectedReply,
    /// The browser session reported a failure.
    Session(SessionError),
}

pub enum RunErrorView {
    MissingSelector,
    WindowNotFound,
    UnexpectedReply,
    Session(SessionErrorView),
}

impl View for RunError {
    type V = RunErrorView;

    open spec fn view(&self) -> RunErrorView {
        match self {
            RunError::MissingSelector => RunErrorView::MissingSelector,
            RunError::WindowNotFound => RunErrorView::WindowNotFound,
            RunError::UnexpectedReply => RunErrorView::UnexpectedReply,
            RunError::Session(e) => RunErrorView::Session(e@),
        }
    }
}

impl RunErrorView {
    /// Only a session-fatal failure of the browser session is fatal; every
    /// other error may be retried by an enclosing loop.
    pub open spec fn is_fatal(self) -> bool {
        match self {
            RunErrorView::Session(e) => e.kind.spec_is_fatal(),
            _ => false,
        }
    }

    /// The text that describes the error to a reader of the log.
    pub open spec fn message(self) -> Seq<char> {
        match self {
            RunErrorView::MissingSelector => "A command needs a selector string"@,
            RunErrorView::WindowNotFound => "Couldn't find the window"@,
            RunErrorView::UnexpectedReply => "The reply does not answer the action"@,
            RunErrorView::Session(e) => e.message,
        }
    }
}

impl RunError {
    /// Whether the error ends the run even inside a retry loop.
    pub fn is_fatal(&self) -> (fatal: bool)
        ensures
            fatal == self@.is_fatal(),
    {
        match self {
            RunError::Session(e) => e.kind.is_fatal(),
            _ => false,
        }
    }

    /// The text that describes the error to a reader of the log.
    pub fn message(&self) -> (text: String)
        ensures
            text@ == self@.message(),
    {
        match self {
            RunError::MissingSelector => String::from_str("A command needs a selector string"),
            RunError::WindowNotFound => String::from_str("Couldn't find the window"),
            RunError::UnexpectedReply => String::from_str("The reply does not answer the action"),
            RunError::Session(e) => e.message.clone(),
        }
    }

    /// A copy of the error.
    pub fn duplicate(&self) -> (copy: RunError)
        ensures
            copy@ == self@,
    {
        match self {
            RunError::MissingSelector => RunError::MissingSelector,
            RunError::WindowNotFound => RunError::WindowNotFound,
            RunError::UnexpectedReply => RunError::UnexpectedReply,
            RunError::Session(e) => RunError::Session(
                SessionError { kind: e.kind, message: e.message.clone() },
            ),
        }
    }
}

} // verus!
