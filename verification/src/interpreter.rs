//! The executable interpreter: one state of a run, and the move from a reply
//! to the next action.

use vstd::prelude::*;
use vstd::slice::slice_subrange;
use vstd::string::StringExecFns;
use crate::command::{command_view, commands_view, lemma_loop_view, CommandType, WebCommand};
use crate::error::RunError;
use crate::laws::{law_start_wf, law_step_wf};
use crate::machine;
use crate::machine::{FrameView, MachineView};
use crate::protocol;
use crate::protocol::PendingView;
use crate::session::{result_view, Action, ElementHandle, Reply, ReplyView};

verus! {

/// One pass through a list of commands, as places in the script.
#[derive(Clone, Copy)]
struct Frame<'a> {
    current: &'a WebCommand,
    rest: &'a [WebCommand],
    body: &'a [WebCommand],
    context: Option<ElementHandle>,
}

impl<'a> View for Frame<'a> {
    type V = FrameView;

    closed spec fn view(&self) -> FrameView {
        FrameView {
            current: command_view(*self.current),
            rest: commands_view(self.rest@),
            body: commands_view(self.body@),
            context: self.context,
        }
    }
}

/// The passes of a stack, each as a mathematical value.
closed spec fn frames_view(frames: Seq<Frame<'_>>) -> Seq<FrameView> {
    Seq::new(frames.len(), |i: int| frames[i]@)
}

/// What the reply to the action in flight will be used for.
enum Pending {
    Closing,
    Unread,
    Windows { index: usize },
    Source,
    Resolve,
    Baseline { element: ElementHandle },
    Clicking { baseline: String },
    Compare { baseline: String },
    Reresolve { baseline: String },
}

impl View for Pending {
    type V = PendingView;

    closed spec fn view(&self) -> PendingView {
        match self {
            Pending::Closing => PendingView::Closing,
            Pending::Unread => PendingView::Unread,
            Pending::Windows { index } => PendingView::Windows { index: *index as nat },
            Pending::Source => PendingView::Source,
            Pending::Resolve => PendingView::Resolve,
            Pending::Baseline { element } => PendingView::Baseline { element: *element },
            Pending::Clicking { baseline } => PendingView::Clicking { baseline: baseline@ },
            Pending::Compare { baseline } => PendingView::Compare { baseline: baseline@ },
            Pending::Reresolve { baseline } => PendingView::Reresolve { baseline: baseline@ },
        }
    }
}

/// Where a run stands: `top` is the innermost pass, `outer` the passes
/// around it, outermost first.
enum State<'a> {
    Running { outer: Vec<Frame<'a>>, top: Frame<'a>, pending: Pending },
    Retrying { outer: Vec<Frame<'a>>, body: &'a [WebCommand] },
    Finished { result: Result<(), RunError> },
}

/// A run of a script, between two actions.
///
/// The run borrows the script and keeps only places in it.
pub struct Interpreter<'a> {
    state: State<'a>,
}

impl<'a> View for Interpreter<'a> {
    type V = MachineView;

    closed spec fn view(&self) -> MachineView {
        match self.state {
            State::Running { outer, top, pending } => MachineView::Running {
                outer: frames_view(outer@),
                top: top@,
                pending: pending@,
            },
            State::Retrying { outer, body } => MachineView::Retrying {
                outer: frames_view(outer@),
                body: commands_view(body@),
            },
            State::Finished { result } => MachineView::Finished { result: result_view(result) },
        }
    }
}

fn finish<'a>(result: Result<(), RunError>) -> (turn: (Interpreter<'a>, Action))
    ensures
        (turn.0@, turn.1@) == machine::finish(result_view(result)),
{
    let copy = match &result {
        Ok(_) => Ok(()),
        Err(e) => Err(e.duplicate()),
    };
    (Interpreter { state: State::Finished { result } }, Action::Finish { result: copy })
}

/// Builds the script that scrolls the first match of `selector` into view.
pub fn scroll_script(selector: &str) -> (script: String)
    ensures
        script@ == protocol::scroll_script(selector@),
{
    String::from_str("document.querySelector(\"").concat(selector).concat(
        "\").scrollIntoView();",
    )
}

/// Builds the line of the log that announces a retry after `error`.
pub fn retry_notice(error: &RunError) -> (text: String)
    ensures
        text@ == machine::retry_notice(error@),
{
    let message = error.message();
    String::from_str("Failed to finish a loop: ").concat(message.as_str()).concat(
        "; will retry...",
    )
}

proof fn lemma_tail_view(commands: Seq<WebCommand>)
    requires
        commands.len() > 0,
    ensures
        commands_view(commands).len() == commands.len(),
        commands_view(commands)[0] == command_view(commands[0]),
        commands_view(commands.subrange(1, commands.len() as int)) == commands_view(
            commands,
        ).drop_first(),
{
    assert(commands_view(commands.subrange(1, commands.len() as int)) =~= commands_view(
        commands,
    ).drop_first());
}

proof fn lemma_push_view(outer: Seq<Frame<'_>>, top: Frame<'_>)
    ensures
        frames_view(outer.push(top)) == frames_view(outer).push(top@),
{
    assert(frames_view(outer.push(top)) =~= frames_view(outer).push(top@));
}

proof fn lemma_pop_view(outer: Seq<Frame<'_>>)
    requires
        outer.len() > 0,
    ensures
        frames_view(outer).len() == outer.len(),
        frames_view(outer).last() == outer.last()@,
        frames_view(outer.drop_last()) == frames_view(outer).drop_last(),
{
    assert(frames_view(outer.drop_last()) =~= frames_view(outer).drop_last());
}

fn emit<'a>(outer: Vec<Frame<'a>>, top: Frame<'a>, pending: Pending, action: Action) -> (turn: (
    Interpreter<'a>,
    Action,
))
    ensures
        (turn.0@, turn.1@) == machine::emit(frames_view(outer@), top@, pending@, action@),
{
    (Interpreter { state: State::Running { outer, top, pending } }, action)
}

fn fail<'a>(outer: Vec<Frame<'a>>, body: &'a [WebCommand], error: RunError) -> (turn: (
    Interpreter<'a>,
    Action,
))
    ensures
        (turn.0@, turn.1@) == machine::fail(frames_view(outer@), commands_view(body@), error@),
{
    if outer.len() == 0 || error.is_fatal() {
        finish(Err(error))
    } else {
        let text = retry_notice(&error);
        (Interpreter { state: State::Retrying { outer, body } }, Action::Log { text })
    }
}

fn begin<'a>(outer: Vec<Frame<'a>>, top: Frame<'a>) -> (turn: (Interpreter<'a>, Action))
    ensures
        (turn.0@, turn.1@) == machine::begin(frames_view(outer@), top@),
    decreases
        machine::weight(frames_view(outer@)) + machine::size(top@.current) + machine::size_seq(
            top@.rest,
        ) + 1,
        0nat,
{
    match &top.current.command_type {
        CommandType::GoTo(url) => emit(
            outer,
            top,
            Pending::Closing,
            Action::Navigate { url: url.clone() },
        ),
        CommandType::Loop(body) => {
            let mut outer = outer;
            proof {
                lemma_loop_view(*body);
                lemma_push_view(outer@, top);
                assert(frames_view(outer@).push(top@).drop_last() =~= frames_view(outer@));
            }
            outer.push(top);
            enter(outer, body.as_slice())
        },
        CommandType::ChangeWindowSize { width, height } => emit(
            outer,
            top,
            Pending::Closing,
            Action::ResizeWindow { width: *width, height: *height },
        ),
        CommandType::ScrollIntoView => match &top.current.selector {
            Some(selector) => {
                let script = scroll_script(selector.as_str());
                emit(outer, top, Pending::Closing, Action::ExecuteScript { script })
            },
            None => fail(outer, top.body, RunError::MissingSelector),
        },
        CommandType::WaitForSeconds(seconds) => emit(
            outer,
            top,
            Pending::Unread,
            Action::Sleep { seconds: *seconds },
        ),
        CommandType::ChangeWindow(index) => emit(
            outer,
            top,
            Pending::Windows { index: *index },
            Action::ListWindows,
        ),
        CommandType::LeaveFrame => emit(outer, top, Pending::Closing, Action::EnterParentFrame),
        CommandType::PrintSource => emit(outer, top, Pending::Source, Action::PageSource),
        CommandType::Wait => match &top.current.selector {
            Some(selector) => emit(
                outer,
                top,
                Pending::Closing,
                Action::WaitFor { selector: selector.clone() },
            ),
            None => fail(outer, top.body, RunError::MissingSelector),
        },
        _ => match &top.current.selector {
            Some(selector) => emit(
                outer,
                top,
                Pending::Resolve,
                Action::Find { selector: selector.clone(), within: top.context },
            ),
            None => fail(outer, top.body, RunError::MissingSelector),
        },
    }
}

fn proceed<'a>(outer: Vec<Frame<'a>>, top: Frame<'a>, context: Option<ElementHandle>) -> (turn: (
    Interpreter<'a>,
    Action,
))
    ensures
        (turn.0@, turn.1@) == machine::proceed(frames_view(outer@), top@, context),
    decreases machine::weight(frames_view(outer@)) + machine::size_seq(top@.rest) + 1, 1nat,
{
    if top.rest.len() > 0 {
        proof {
            lemma_tail_view(top.rest@);
        }
        let next = Frame {
            current: &top.rest[0],
            rest: slice_subrange(top.rest, 1, top.rest.len()),
            body: top.body,
            context,
        };
        begin(outer, next)
    } else {
        leave(outer)
    }
}

fn enter<'a>(outer: Vec<Frame<'a>>, body: &'a [WebCommand]) -> (turn: (Interpreter<'a>, Action))
    ensures
        (turn.0@, turn.1@) == machine::enter(frames_view(outer@), commands_view(body@)),
    decreases
        machine::weight(frames_view(outer@)) + machine::size_seq(commands_view(body@)) + 1,
        1nat,
{
    if body.len() > 0 {
        proof {
            lemma_tail_view(body@);
        }
        let first = Frame {
            current: &body[0],
            rest: slice_subrange(body, 1, body.len()),
            body,
            context: None,
        };
        begin(outer, first)
    } else {
        leave(outer)
    }
}

fn leave<'a>(outer: Vec<Frame<'a>>) -> (turn: (Interpreter<'a>, Action))
    ensures
        (turn.0@, turn.1@) == machine::leave(frames_view(outer@)),
    decreases machine::weight(frames_view(outer@)), 2nat,
{
    let mut outer = outer;
    proof {
        if outer.len() > 0 {
            lemma_pop_view(outer@);
        }
    }
    match outer.pop() {
        Some(parent) => proceed(outer, parent, parent.context),
        None => finish(Ok(())),
    }
}

fn needs_element(kind: &CommandType) -> (needs: bool)
    ensures
        needs == protocol::needs_element(kind@),
{
    match kind {
        CommandType::Clear
        | CommandType::EnterFrame
        | CommandType::ClickUntilNavigation
        | CommandType::ClickUntilDomChanged
        | CommandType::Click
        | CommandType::Input(_)
        | CommandType::Recursive(_)
        | CommandType::Check => true,
        _ => false,
    }
}

fn done<'a>(outer: Vec<Frame<'a>>, top: Frame<'a>) -> (turn: (Interpreter<'a>, Action))
    ensures
        (turn.0@, turn.1@) == machine::proceed(
            frames_view(outer@),
            top@,
            protocol::context_after(top@.current.command_type, top@.context),
        ),
{
    let context = if needs_element(&top.current.command_type) {
        None
    } else {
        top.context
    };
    proceed(outer, top, context)
}

fn snapshot(kind: &CommandType) -> (action: Action)
    ensures
        action@ == protocol::snapshot(kind@),
{
    match kind {
        CommandType::ClickUntilNavigation => Action::CurrentUrl,
        _ => Action::PageSource,
    }
}

fn resolved<'a>(outer: Vec<Frame<'a>>, top: Frame<'a>, element: ElementHandle) -> (turn: (
    Interpreter<'a>,
    Action,
))
    ensures
        (turn.0@, turn.1@) == machine::step(
            MachineView::Running {
                outer: frames_view(outer@),
                top: top@,
                pending: PendingView::Resolve,
            },
            ReplyView::Element(element),
        ),
{
    match &top.current.command_type {
        CommandType::Clear => emit(outer, top, Pending::Closing, Action::Clear { element }),
        CommandType::EnterFrame => emit(
            outer,
            top,
            Pending::Closing,
            Action::EnterFrame { element },
        ),
        CommandType::Click => emit(outer, top, Pending::Closing, Action::Click { element }),
        CommandType::Input(text) => emit(
            outer,
            top,
            Pending::Closing,
            Action::SendKeys { element, text: text.clone() },
        ),
        CommandType::ClickUntilNavigation | CommandType::ClickUntilDomChanged => {
            let action = snapshot(&top.current.command_type);
            emit(outer, top, Pending::Baseline { element }, action)
        },
        CommandType::Recursive(inner) => {
            let child = Frame {
                current: &**inner,
                rest: top.rest,
                body: top.body,
                context: Some(element),
            };
            begin(outer, child)
        },
        _ => done(outer, top),
    }
}

fn compared<'a>(outer: Vec<Frame<'a>>, top: Frame<'a>, baseline: String, now: String) -> (turn: (
    Interpreter<'a>,
    Action,
))
    ensures
        (turn.0@, turn.1@) == machine::step(
            MachineView::Running {
                outer: frames_view(outer@),
                top: top@,
                pending: PendingView::Compare { baseline: baseline@ },
            },
            ReplyView::Text(now@),
        ),
{
    if !(now == baseline) {
        done(outer, top)
    } else {
        match &top.current.selector {
            Some(selector) => emit(
                outer,
                top,
                Pending::Reresolve { baseline },
                Action::Find { selector: selector.clone(), within: None },
            ),
            None => fail(outer, top.body, RunError::MissingSelector),
        }
    }
}

fn listed<'a>(outer: Vec<Frame<'a>>, top: Frame<'a>, index: usize, handles: Vec<String>) -> (turn:
    (Interpreter<'a>, Action))
    ensures
        (turn.0@, turn.1@) == machine::step(
            MachineView::Running {
                outer: frames_view(outer@),
                top: top@,
                pending: PendingView::Windows { index: index as nat },
            },
            Reply::Windows(handles)@,
        ),
{
    if index < handles.len() {
        let handle = handles[index].clone();
        emit(outer, top, Pending::Closing, Action::SwitchToWindow { handle })
    } else {
        fail(outer, top.body, RunError::WindowNotFound)
    }
}

impl<'a> Interpreter<'a> {
    /// Starts a run of `script`, and says what to do first.
    pub fn start(script: &'a [WebCommand]) -> (turn: (Interpreter<'a>, Action))
        ensures
            (turn.0@, turn.1@) == machine::start(commands_view(script@)),
            turn.0@.wf(),
    {
        proof {
            assert(frames_view(Seq::<Frame<'a>>::empty()) =~= Seq::<FrameView>::empty());
            law_start_wf(commands_view(script@));
        }
        enter(Vec::new(), script)
    }

    /// Takes the reply to the action in flight, and says what to do next.
    ///
    /// Every action but `Finish` is answered by one reply. After `Finish`
    /// the run stays ended, whatever is handed in.
    pub fn resume(self, reply: Reply) -> (turn: (Interpreter<'a>, Action))
        ensures
            (turn.0@, turn.1@) == machine::step(self@, reply@),
            self@.wf() ==> turn.0@.wf(),
    {
        proof {
            if self@.wf() {
                law_step_wf(self@, reply@);
            }
        }
        match self.state {
            State::Finished { result } => finish(result),
            State::Retrying { outer, body } => enter(outer, body),
            State::Running { outer, top, pending } => match (pending, reply) {
                (Pending::Unread, _) => done(outer, top),
                (_, Reply::Failed(error)) => fail(outer, top.body, RunError::Session(error)),
                (Pending::Closing, _) => done(outer, top),
                (Pending::Clicking { baseline }, _) => {
                    let action = snapshot(&top.current.command_type);
                    emit(outer, top, Pending::Compare { baseline }, action)
                },
                (Pending::Windows { index }, Reply::Windows(handles)) => listed(
                    outer,
                    top,
                    index,
                    handles,
                ),
                (Pending::Source, Reply::Text(text)) => emit(
                    outer,
                    top,
                    Pending::Unread,
                    Action::Log { text },
                ),
                (Pending::Resolve, Reply::Element(element)) => resolved(outer, top, element),
                (Pending::Baseline { element }, Reply::Text(baseline)) => emit(
                    outer,
                    top,
                    Pending::Clicking { baseline },
                    Action::Click { element },
                ),
                (Pending::Compare { baseline }, Reply::Text(now)) => compared(
                    outer,
                    top,
                    baseline,
                    now,
                ),
                (Pending::Reresolve { baseline }, Reply::Element(element)) => emit(
                    outer,
                    top,
                    Pending::Clicking { baseline },
                    Action::Click { element },
                ),
                _ => fail(outer, top.body, RunError::UnexpectedReply),
            },
        }
    }

    /// The result of the run, once it has ended.
    pub fn result(&self) -> (result: Option<Result<(), RunError>>)
        ensures
            match self@ {
                MachineView::Finished { result: r } => result is Some && result_view(
                    result->Some_0,
                ) == r,
                _ => result is None,
            },
    {
        match &self.state {
            State::Running { .. } | State::Retrying { .. } => None,
            State::Finished { result } => match result {
                Ok(_) => Some(Ok(())),
                Err(e) => Some(Err(e.duplicate())),
            },
        }
    }
}

} // verus!
