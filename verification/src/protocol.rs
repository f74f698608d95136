//! The conversation of one command with the browser session: the action it
//! starts with, and what each reply leads to.
//!
//! Loops have no conversation of their own; they are a matter of
//! [`crate::machine`].

use vstd::prelude::*;
use crate::command::{CommandTypeView, CommandView};
use crate::error::RunErrorView;
use crate::session::{ActionView, ElementHandle, ReplyView};

verus! {

/// What the reply to the action in flight will be used for.
pub enum PendingView {
    /// The last action of the command.
    Closing,
    /// An action whose reply is not read, and the last of its command: a
    /// pause, a line of the log.
    Unread,
    /// The list of windows, of which the one at `index` is wanted.
    Windows { index: nat },
    /// The page source, to be written to the log.
    Source,
    /// The lookup of the element of the command.
    Resolve,
    /// The snapshot taken before the first click on `element`.
    Baseline { element: ElementHandle },
    /// A click, after which the page is compared with `baseline`.
    Clicking { baseline: Seq<char> },
    /// The snapshot taken after a click.
    Compare { baseline: Seq<char> },
    /// The lookup of the element for the next click.
    Reresolve { baseline: Seq<char> },
}

/// What a reply leads to.
pub enum Reaction {
    /// The command goes on with another action.
    Next { pending: PendingView, action: ActionView },
    /// The command is done.
    Done,
    /// The command has found the element inside which its inner command is
    /// to run.
    Descend { inner: CommandView, element: ElementHandle },
    /// The command has failed.
    Fail { error: RunErrorView },
}

/// The script that scrolls the first match of a selector into view.
pub open spec fn scroll_script(selector: Seq<char>) -> Seq<char> {
    "document.querySelector(\""@ + selector + "\").scrollIntoView();"@
}

/// Commands that work on an element: they look it up by their selector,
/// inside the context where there is one.
pub open spec fn needs_element(kind: CommandTypeView) -> bool {
    match kind {
        CommandTypeView::Clear
        | CommandTypeView::EnterFrame
        | CommandTypeView::ClickUntilNavigation
        | CommandTypeView::ClickUntilDomChanged
        | CommandTypeView::Click
        | CommandTypeView::Input(_)
        | CommandTypeView::Recursive(_)
        | CommandTypeView::Check => true,
        _ => false,
    }
}

/// Commands that cannot start without a selector.
pub open spec fn needs_selector(kind: CommandTypeView) -> bool {
    needs_element(kind) || kind is ScrollIntoView || kind is Wait
}

/// The context that a command leaves to the one after it: none, where the
/// command works on an element; the one it was given, where it does not.
pub open spec fn context_after(kind: CommandTypeView, given: Option<ElementHandle>) -> Option<
    ElementHandle,
> {
    if needs_element(kind) {
        None
    } else {
        given
    }
}

/// The action with which a command that is no loop starts, and what the
/// reply to it will be used for.
pub open spec fn opening(command: CommandView, context: Option<ElementHandle>) -> (
    PendingView,
    ActionView,
)
    recommends
        !(command.command_type is Loop),
        needs_selector(command.command_type) ==> command.selector is Some,
{
    let selector = command.selector->Some_0;
    match command.command_type {
        CommandTypeView::GoTo(url) => (PendingView::Closing, ActionView::Navigate { url }),
        CommandTypeView::ChangeWindowSize { width, height } => (
            PendingView::Closing,
            ActionView::ResizeWindow { width, height },
        ),
        CommandTypeView::ScrollIntoView => (
            PendingView::Closing,
            ActionView::ExecuteScript { script: scroll_script(selector) },
        ),
        CommandTypeView::WaitForSeconds(seconds) => (
            PendingView::Unread,
            ActionView::Sleep { seconds },
        ),
        CommandTypeView::ChangeWindow(index) => (
            PendingView::Windows { index },
            ActionView::ListWindows,
        ),
        CommandTypeView::LeaveFrame => (PendingView::Closing, ActionView::EnterParentFrame),
        CommandTypeView::PrintSource => (PendingView::Source, ActionView::PageSource),
        CommandTypeView::Wait => (PendingView::Closing, ActionView::WaitFor { selector }),
        _ => (PendingView::Resolve, ActionView::Find { selector, within: context }),
    }
}

/// What a command does to the element it has found, where that is one
/// action.
pub open spec fn operation(kind: CommandTypeView, element: ElementHandle) -> Option<ActionView> {
    match kind {
        CommandTypeView::Clear => Some(ActionView::Clear { element }),
        CommandTypeView::EnterFrame => Some(ActionView::EnterFrame { element }),
        CommandTypeView::Click => Some(ActionView::Click { element }),
        CommandTypeView::Input(text) => Some(ActionView::SendKeys { element, text }),
        _ => None,
    }
}

/// The action that takes the snapshot a repeated click is judged by: the URL
/// for `ClickUntilNavigation`, the page source otherwise.
pub open spec fn snapshot(kind: CommandTypeView) -> ActionView {
    if kind is ClickUntilNavigation {
        ActionView::CurrentUrl
    } else {
        ActionView::PageSource
    }
}

/// The error with which a command fails when `reply` answers its action in
/// flight, if it fails.
///
/// A command fails when the session reports a failure of an action whose
/// reply is read, when the reply has not the shape that the action calls
/// for, when the window it names is not open, and when it has no selector
/// by which to look its element up again.
pub open spec fn failure(command: CommandView, pending: PendingView, reply: ReplyView) -> Option<
    RunErrorView,
> {
    match (pending, reply) {
        (PendingView::Unread, _) => None,
        (_, ReplyView::Failed(error)) => Some(RunErrorView::Session(error)),
        (PendingView::Closing, _)
        | (PendingView::Clicking { .. }, _)
        | (PendingView::Source, ReplyView::Text(_))
        | (PendingView::Resolve, ReplyView::Element(_))
        | (PendingView::Baseline { .. }, ReplyView::Text(_))
        | (PendingView::Reresolve { .. }, ReplyView::Element(_)) => None,
        (PendingView::Windows { index }, ReplyView::Windows(handles)) => if index
            < handles.len() {
            None
        } else {
            Some(RunErrorView::WindowNotFound)
        },
        (PendingView::Compare { baseline }, ReplyView::Text(now)) => if now == baseline
            && command.selector is None {
            Some(RunErrorView::MissingSelector)
        } else {
            None
        },
        _ => Some(RunErrorView::UnexpectedReply),
    }
}

/// What the element that a command has looked up leads to.
///
/// `Recursive` hands it to its inner command, a repeated click takes its
/// first snapshot, an operation is carried out, and for `Check` the command
/// is done.
pub open spec fn resolved(kind: CommandTypeView, element: ElementHandle) -> Reaction {
    match kind {
        CommandTypeView::Recursive(inner) => Reaction::Descend { inner: *inner, element },
        CommandTypeView::ClickUntilNavigation | CommandTypeView::ClickUntilDomChanged => {
            Reaction::Next { pending: PendingView::Baseline { element }, action: snapshot(kind) }
        },
        _ => match operation(kind, element) {
            Some(action) => Reaction::Next { pending: PendingView::Closing, action },
            None => Reaction::Done,
        },
    }
}

/// What `reply` leads to when it answers the action in flight of `command`.
pub open spec fn react(command: CommandView, pending: PendingView, reply: ReplyView) -> Reaction {
    match failure(command, pending, reply) {
        Some(error) => Reaction::Fail { error },
        None => match pending {
            PendingView::Closing | PendingView::Unread => Reaction::Done,
            PendingView::Windows { index } => Reaction::Next {
                pending: PendingView::Closing,
                action: ActionView::SwitchToWindow { handle: reply->Windows_0[index as int] },
            },
            PendingView::Source => Reaction::Next {
                pending: PendingView::Unread,
                action: ActionView::Log { text: reply->Text_0 },
            },
            PendingView::Resolve => resolved(command.command_type, reply->Element_0),
            PendingView::Baseline { element } => Reaction::Next {
                pending: PendingView::Clicking { baseline: reply->Text_0 },
                action: ActionView::Click { element },
            },
            PendingView::Clicking { baseline } => Reaction::Next {
                pending: PendingView::Compare { baseline },
                action: snapshot(command.command_type),
            },
            PendingView::Compare { baseline } => if reply->Text_0 != baseline {
                Reaction::Done
            } else {
                Reaction::Next {
                    pending: PendingView::Reresolve { baseline },
                    action: ActionView::Find { selector: command.selector->Some_0, within: None },
                }
            },
            PendingView::Reresolve { baseline } => Reaction::Next {
                pending: PendingView::Clicking { baseline },
                action: ActionView::Click { element: reply->Element_0 },
            },
        },
    }
}

/// The action in flight is one that a command of the kind asks for.
pub open spec fn expects(kind: CommandTypeView, pending: PendingView) -> bool {
    match pending {
        PendingView::Closing => kind is GoTo || kind is ChangeWindowSize || kind is ScrollIntoView
            || kind is ChangeWindow || kind is LeaveFrame || kind is Wait || kind is Clear
            || kind is EnterFrame || kind is Click || kind is Input,
        PendingView::Unread => kind is WaitForSeconds || kind is PrintSource,
        PendingView::Windows { index } => kind == CommandTypeView::ChangeWindow(index),
        PendingView::Source => kind is PrintSource,
        PendingView::Resolve => needs_element(kind),
        PendingView::Baseline { .. }
        | PendingView::Clicking { .. }
        | PendingView::Compare { .. }
        | PendingView::Reresolve { .. } => kind is ClickUntilNavigation
            || kind is ClickUntilDomChanged,
    }
}

} // verus!
