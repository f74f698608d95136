//! The script vocabulary: what a command is, and how a command tells the
//! interpreter where to look for its element.

use vstd::prelude::*;

verus! {

/// A duration in seconds, kept as the bit pattern of an IEEE-754 double.
///
/// The interpreter never computes with a duration; it hands the pattern
/// through to the pause it asks for.
#[derive(Clone, Copy, Debug, PartialEq, Eq, Structural)]
pub struct Seconds {
    pub bits: u64,
}

/// What a command does.
#[derive(Debug, PartialEq, Eq)]
pub enum CommandType {
    /// Click the element.
    Click,
    /// Succeed if the element can be found.
    Check,
    /// Type the text into the element.
    Input(String),
    /// Wait until an element matches the command's selector.
    Wait,
    /// Pause for the given time.
    WaitForSeconds(Seconds),
    /// Navigate to the URL.
    GoTo(String),
    /// Switch to the window at the index in the list of open windows.
    ChangeWindow(usize),
    /// Make the element, a frame, the active frame.
    EnterFrame,
    /// Make the parent of the active frame the active frame.
    LeaveFrame,
    /// Write the page source to the log.
    PrintSource,
    /// Find the element and run the inner command inside it.
    Recursive(Box<WebCommand>),
    /// Scroll the first match of the command's selector into view.
    ScrollIntoView,
    /// Resize the window.
    ChangeWindowSize { width: u32, height: u32 },
    /// Run the inner commands until one whole pass succeeds.
    Loop(Vec<WebCommand>),
    /// Empty the element's value.
    Clear,
    /// Click the element again and again until the URL differs.
    ClickUntilNavigation,
    /// Click the element again and again until the page source differs.
    ClickUntilDomChanged,
}

/// One step of a script.
#[derive(Debug, PartialEq, Eq)]
pub struct WebCommand {
    /// CSS selector of the element the command works on.
    pub selector: Option<String>,
    pub command_type: CommandType,
}

/// [`CommandType`] as a mathematical value.
pub enum CommandTypeView {
    Click,
    Check,
    Input(Seq<char>),
    Wait,
    WaitForSeconds(Seconds),
    GoTo(Seq<char>),
    ChangeWindow(nat),
    EnterFrame,
    LeaveFrame,
    PrintSource,
    Recursive(Box<CommandView>),
    ScrollIntoView,
    ChangeWindowSize { width: u32, height: u32 },
    Loop(Seq<CommandView>),
    Clear,
    ClickUntilNavigation,
    ClickUntilDomChanged,
}

/// [`WebCommand`] as a mathematical value.
pub struct CommandView {
    pub selector: Option<Seq<char>>,
    pub command_type: CommandTypeView,
}

/// The mathematical value of a command type.
pub open spec fn command_type_view(kind: CommandType) -> CommandTypeView
    decreases kind,
{
    match kind {
        CommandType::Click => CommandTypeView::Click,
        CommandType::Check => CommandTypeView::Check,
        CommandType::Input(text) => CommandTypeView::Input(text@),
        CommandType::Wait => CommandTypeView::Wait,
        CommandType::WaitForSeconds(seconds) => CommandTypeView::WaitForSeconds(seconds),
        CommandType::GoTo(url) => CommandTypeView::GoTo(url@),
        CommandType::ChangeWindow(index) => CommandTypeView::ChangeWindow(index as nat),
        CommandType::EnterFrame => CommandTypeView::EnterFrame,
        CommandType::LeaveFrame => CommandTypeView::LeaveFrame,
        CommandType::PrintSource => CommandTypeView::PrintSource,
        CommandType::Recursive(inner) => CommandTypeView::Recursive(
            Box::new(command_view(*inner)),
        ),
        CommandType::ScrollIntoView => CommandTypeView::ScrollIntoView,
        CommandType::ChangeWindowSize { width, height } => CommandTypeView::ChangeWindowSize {
            width,
            height,
        },
        CommandType::Loop(body) => CommandTypeView::Loop(
            Seq::new(
                body.len() as nat,
                |i: int|
                    if 0 <= i < body.len() {
                        command_view(body[i])
                    } else {
                        arbitrary()
                    },
            ),
        ),
        CommandType::Clear => CommandTypeView::Clear,
        CommandType::ClickUntilNavigation => CommandTypeView::ClickUntilNavigation,
        CommandType::ClickUntilDomChanged => CommandTypeView::ClickUntilDomChanged,
    }
}

/// The mathematical value of a command.
pub open spec fn command_view(command: WebCommand) -> CommandView
    decreases command,
{
    CommandView {
        selector: match command.selector {
            Some(s) => Some(s@),
            None => None,
        },
        command_type: command_type_view(command.command_type),
    }
}

/// The mathematical value of a list of commands.
pub open spec fn commands_view(commands: Seq<WebCommand>) -> Seq<CommandView> {
    Seq::new(commands.len(), |i: int| command_view(commands[i]))
}

/// The view of a loop holds the views of the commands of its body.
pub proof fn lemma_loop_view(body: Vec<WebCommand>)
    ensures
        command_type_view(CommandType::Loop(body)) == CommandTypeView::Loop(
            commands_view(body@),
        ),
{
    let view = command_type_view(CommandType::Loop(body));
    assert(view is Loop);
    assert(view->Loop_0 =~= commands_view(body@));
}

impl View for CommandType {
    type V = CommandTypeView;

    open spec fn view(&self) -> CommandTypeView {
        command_type_view(*self)
    }
}

impl View for WebCommand {
    type V = CommandView;

    open spec fn view(&self) -> CommandView {
        command_view(*self)
    }
}

} // verus!
