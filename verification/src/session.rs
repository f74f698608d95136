//! The conversation between the interpreter and a browser session: the
//! actions the interpreter asks for and the replies it gets back.

use vstd::prelude::*;
use crate::command::Seconds;
use crate::error::{RunError, RunErrorView, SessionError, SessionErrorView};

verus! {

/// Names an element that the browser session has found.
///
/// The session chooses the number; the interpreter only hands it back.
#[derive(Clone, Copy, Debug, PartialEq, Eq, Structural)]
pub struct ElementHandle {
    pub id: u64,
}

/// What the interpreter asks the browser session to do next.
#[derive(Debug, PartialEq, Eq)]
pub enum Action {
    /// Load the URL in the active window.
    Navigate { url: String },
    /// Give the active window the size.
    ResizeWindow { width: u32, height: u32 },
    /// Run the script in the page.
    ExecuteScript { script: String },
    /// Do nothing for the time given.
    Sleep { seconds: Seconds },
    /// Report the handles of the open windows, in the session's order.
    ListWindows,
    /// Make the window with the handle the active window.
    SwitchToWindow { handle: String },
    /// Make the parent of the active frame the active frame.
    EnterParentFrame,
    /// Report the source of the page.
    PageSource,
    /// Report the URL of the page.
    CurrentUrl,
    /// Write the text to the log.
    Log { text: String },
    /// Wait, for as long as the session allows, until an element matches the
    /// selector.
    WaitFor { selector: String },
    /// Find the first element that matches the selector: inside `within`, or
    /// in the whole document where there is none.
    Find { selector: String, within: Option<ElementHandle> },
    /// Empty the element's value.
    Clear { element: ElementHandle },
    /// Make the element, a frame, the active frame.
    EnterFrame { element: ElementHandle },
    /// Click the element.
    Click { element: ElementHandle },
    /// Type the text into the element.
    SendKeys { element: ElementHandle, text: String },
    /// Nothing is left to do: the run has ended with the result.
    Finish { result: Result<(), RunError> },
}

/// [`Action`] as a mathematical value.
pub enum ActionView {
    Navigate { url: Seq<char> },
    ResizeWindow { width: u32, height: u32 },
    ExecuteScript { script: Seq<char> },
    Sleep { seconds: Seconds },
    ListWindows,
    SwitchToWindow { handle: Seq<char> },
    EnterParentFrame,
    PageSource,
    CurrentUrl,
    Log { text: Seq<char> },
    WaitFor { selector: Seq<char> },
    Find { selector: Seq<char>, within: Option<ElementHandle> },
    Clear { element: ElementHandle },
    EnterFrame { element: ElementHandle },
    Click { element: ElementHandle },
    SendKeys { element: ElementHandle, text: Seq<char> },
    Finish { result: Result<(), RunErrorView> },
}

/// The mathematical value of the result of a run.
pub open spec fn result_view(result: Result<(), RunError>) -> Result<(), RunErrorView> {
    match result {
        Ok(_) => Ok(()),
        Err(e) => Err(e@),
    }
}

impl View for Action {
    type V = ActionView;

    open spec fn view(&self) -> ActionView {
        match self {
            Action::Navigate { url } => ActionView::Navigate { url: url@ },
            Action::ResizeWindow { width, height } => ActionView::ResizeWindow {
                width: *width,
                height: *height,
            },
            Action::ExecuteScript { script } => ActionView::ExecuteScript { script: script@ },
            Action::Sleep { seconds } => ActionView::Sleep { seconds: *seconds },
            Action::ListWindows => ActionView::ListWindows,
            Action::SwitchToWindow { handle } => ActionView::SwitchToWindow { handle: handle@ },
            Action::EnterParentFrame => ActionView::EnterParentFrame,
            Action::PageSource => ActionView::PageSource,
            Action::CurrentUrl => ActionView::CurrentUrl,
            Action::Log { text } => ActionView::Log { text: text@ },
            Action::WaitFor { selector } => ActionView::WaitFor { selector: selector@ },
            Action::Find { selector, within } => ActionView::Find {
                selector: selector@,
                within: *within,
            },
            Action::Clear { element } => ActionView::Clear { element: *element },
            Action::EnterFrame { element } => ActionView::EnterFrame { element: *element },
            Action::Click { element } => ActionView::Click { element: *element },
            Action::SendKeys { element, text } => ActionView::SendKeys {
                element: *element,
                text: text@,
            },
            Action::Finish { result } => ActionView::Finish { result: result_view(*result) },
        }
    }
}

/// What the browser session answers to an action.
#[derive(Clone, Debug, PartialEq, Eq)]
pub enum Reply {
    /// The action was carried out and has nothing to report.
    Done,
    /// The text that the action asked for.
    Text(String),
    /// The element that the action found.
    Element(ElementHandle),
    /// The handles of the open windows.
    Windows(Vec<String>),
    /// The action failed.
    Failed(SessionError),
}

/// [`Reply`] as a mathematical value.
pub enum ReplyView {
    Done,
    Text(Seq<char>),
    Element(ElementHandle),
    Windows(Seq<Seq<char>>),
    Failed(SessionErrorView),
}

impl View for Reply {
    type V = ReplyView;

    open spec fn view(&self) -> ReplyView {
        match self {
            Reply::Done => ReplyView::Done,
            Reply::Text(text) => ReplyView::Text(text@),
            Reply::Element(element) => ReplyView::Element(*element),
            Reply::Windows(handles) => ReplyView::Windows(
                Seq::new(handles@.len(), |i: int| handles@[i]@),
            ),
            Reply::Failed(error) => ReplyView::Failed(error@),
        }
    }
}

} // verus!
