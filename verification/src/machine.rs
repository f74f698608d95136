//! The interpreter as a mathematical state machine.
//!
//! A run is a conversation. The machine emits an action, the browser session
//! answers with a reply, and [`step`] maps the state and the reply to the next
//! state and the next action. What one command says is laid down in
//! [`crate::protocol`]; here is what runs the commands of a list one after
//! the other and hands the context on ([`proceed`]), what runs the body of a
//! loop ([`enter`], [`leave`]), and what becomes of a failure ([`fail`]).

use vstd::prelude::*;
use crate::command::{CommandTypeView, CommandView};
use crate::error::RunErrorView;
use crate::protocol::{
    context_after, expects, needs_selector, opening, react, PendingView, Reaction,
};
use crate::session::{ActionView, ElementHandle, ReplyView};

verus! {

/// One pass through a list of commands: the script itself, or the body of a
/// loop.
pub struct FrameView {
    /// The command in progress.
    pub current: CommandView,
    /// The commands of the list that follow it.
    pub rest: Seq<CommandView>,
    /// The whole list, from which a retry starts over.
    pub body: Seq<CommandView>,
    /// The element in which the command in progress looks for its own.
    pub context: Option<ElementHandle>,
}

/// The state of a run between two actions.
pub enum MachineView {
    /// An action of a command is in flight. `top` is the innermost pass and
    /// `outer` holds the passes around it, outermost first; the command in
    /// progress of each of those is the loop that the next pass runs the
    /// body of.
    Running { outer: Seq<FrameView>, top: FrameView, pending: PendingView },
    /// The notice of a retry is in flight: the innermost pass has failed,
    /// and `body` will run again inside `outer`.
    Retrying { outer: Seq<FrameView>, body: Seq<CommandView> },
    /// The run has ended.
    Finished { result: Result<(), RunErrorView> },
}

/// The line of the log that announces a retry.
pub open spec fn retry_notice(error: RunErrorView) -> Seq<char> {
    "Failed to finish a loop: "@ + error.message() + "; will retry..."@
}

/// The number of moves that a command can take without an action: one to
/// start it, and for a loop one more to leave it.
pub open spec fn size(command: CommandView) -> nat
    decreases command,
{
    match command.command_type {
        CommandTypeView::Loop(body) => 2 + size_seq(body),
        CommandTypeView::Recursive(inner) => 1 + size(*inner),
        _ => 1,
    }
}

/// The sizes of the commands of a list, added up.
pub open spec fn size_seq(commands: Seq<CommandView>) -> nat
    decreases commands,
{
    if commands.len() == 0 {
        0
    } else {
        proof {
            broadcast use vstd::seq::axiom_seq_subrange_decreases;

        }
        size(commands[0]) + size_seq(commands.drop_first())
    }
}

/// What is left of the passes around the innermost one.
pub open spec fn weight(outer: Seq<FrameView>) -> nat
    decreases outer.len(),
{
    if outer.len() == 0 {
        0
    } else {
        weight(outer.drop_last()) + size_seq(outer.last().rest) + 1
    }
}

/// The run ends.
pub open spec fn finish(result: Result<(), RunErrorView>) -> (MachineView, ActionView) {
    (MachineView::Finished { result }, ActionView::Finish { result })
}

/// The run goes on with an action of the command in progress.
pub open spec fn emit(
    outer: Seq<FrameView>,
    top: FrameView,
    pending: PendingView,
    action: ActionView,
) -> (MachineView, ActionView) {
    (MachineView::Running { outer, top, pending }, action)
}

/// A command of the pass that runs `body` inside `outer` has failed.
///
/// Outside every loop the failure ends the run, and so does a fatal one
/// anywhere. Any other failure inside a loop is logged, and the innermost
/// loop starts over.
pub open spec fn fail(outer: Seq<FrameView>, body: Seq<CommandView>, error: RunErrorView) -> (
    MachineView,
    ActionView,
) {
    if outer.len() == 0 || error.is_fatal() {
        finish(Err(error))
    } else {
        (MachineView::Retrying { outer, body }, ActionView::Log { text: retry_notice(error) })
    }
}

/// The pass that starts at the head of a list, with no context.
pub open spec fn first_frame(body: Seq<CommandView>) -> FrameView
    recommends
        body.len() > 0,
{
    FrameView { current: body[0], rest: body.drop_first(), body, context: None }
}

/// The pass in which the command after the one in progress has its turn.
pub open spec fn next_frame(top: FrameView, context: Option<ElementHandle>) -> FrameView
    recommends
        top.rest.len() > 0,
{
    FrameView { current: top.rest[0], rest: top.rest.drop_first(), body: top.body, context }
}

/// The pass in which the inner command of a `Recursive` takes the place of
/// the outer one, with the element found as its context.
pub open spec fn inner_frame(
    top: FrameView,
    inner: CommandView,
    element: ElementHandle,
) -> FrameView {
    FrameView { current: inner, rest: top.rest, body: top.body, context: Some(element) }
}

/// Starts the command in progress of the innermost pass.
///
/// A loop runs its body as a new innermost pass. A command that needs a
/// selector and has none fails. Any other command asks for its first action.
pub open spec fn begin(outer: Seq<FrameView>, top: FrameView) -> (MachineView, ActionView)
    decreases weight(outer) + size(top.current) + size_seq(top.rest) + 1, 0nat,
{
    match top.current.command_type {
        CommandTypeView::Loop(body) => {
            proof {
                assert(outer.push(top).drop_last() =~= outer);
            }
            enter(outer.push(top), body)
        },
        kind => if needs_selector(kind) && top.current.selector is None {
            fail(outer, top.body, RunErrorView::MissingSelector)
        } else {
            let (pending, action) = opening(top.current, top.context);
            emit(outer, top, pending, action)
        },
    }
}

/// The command in progress of the innermost pass is done and leaves
/// `context` to the command after it.
pub open spec fn proceed(outer: Seq<FrameView>, top: FrameView, context: Option<ElementHandle>) -> (
    MachineView,
    ActionView,
)
    decreases weight(outer) + size_seq(top.rest) + 1, 1nat,
{
    if top.rest.len() > 0 {
        begin(outer, next_frame(top, context))
    } else {
        leave(outer)
    }
}

/// Runs a list of commands as a new innermost pass, from its first command
/// and with no context.
pub open spec fn enter(outer: Seq<FrameView>, body: Seq<CommandView>) -> (MachineView, ActionView)
    decreases weight(outer) + size_seq(body) + 1, 1nat,
{
    if body.len() > 0 {
        begin(outer, first_frame(body))
    } else {
        leave(outer)
    }
}

/// The innermost pass has come to its end.
///
/// Inside a loop, the loop is done, and leaves the context of the pass
/// around it as it was. Outside every loop the run ends.
pub open spec fn leave(outer: Seq<FrameView>) -> (MachineView, ActionView)
    decreases weight(outer), 2nat,
{
    if outer.len() == 0 {
        finish(Ok(()))
    } else {
        proceed(outer.drop_last(), outer.last(), outer.last().context)
    }
}

/// The first state and the first action of a run of `script`.
pub open spec fn start(script: Seq<CommandView>) -> (MachineView, ActionView) {
    enter(Seq::empty(), script)
}

/// The state and the action that follow when `reply` answers the action in
/// flight.
///
/// The reply to an action of a command leads where the command's
/// conversation says. The reply to the notice of a retry is not read: the
/// body runs again. A run that has ended stays as it is.
pub open spec fn step(machine: MachineView, reply: ReplyView) -> (MachineView, ActionView) {
    match machine {
        MachineView::Running { outer, top, pending } => match react(top.current, pending, reply) {
            Reaction::Next { pending, action } => emit(outer, top, pending, action),
            Reaction::Done => proceed(
                outer,
                top,
                context_after(top.current.command_type, top.context),
            ),
            Reaction::Descend { inner, element } => begin(
                outer,
                inner_frame(top, inner, element),
            ),
            Reaction::Fail { error } => fail(outer, top.body, error),
        },
        MachineView::Retrying { outer, body } => enter(outer, body),
        MachineView::Finished { result } => finish(result),
    }
}

/// The state after each of `replies` has answered, in turn, the action that
/// was in flight.
pub open spec fn state_after(machine: MachineView, replies: Seq<ReplyView>) -> MachineView
    decreases replies.len(),
{
    if replies.len() == 0 {
        machine
    } else {
        step(state_after(machine, replies.drop_last()), replies.last()).0
    }
}

/// The actions that a run emits as the replies come in: the `i`th of them
/// is the one that answers `replies[i]`.
pub open spec fn actions_of(machine: MachineView, replies: Seq<ReplyView>) -> Seq<ActionView> {
    Seq::new(
        replies.len(),
        |i: int| step(state_after(machine, replies.take(i)), replies[i]).1,
    )
}

/// The first of the replies can be taken by itself.
pub proof fn lemma_state_after_first(machine: MachineView, reply: ReplyView, later: Seq<ReplyView>)
    ensures
        state_after(machine, seq![reply] + later) == state_after(step(machine, reply).0, later),
    decreases later.len(),
{
    let replies = seq![reply] + later;
    if later.len() == 0 {
        assert(replies.drop_last() =~= Seq::empty());
        assert(state_after(machine, replies.drop_last()) == machine);
    } else {
        assert(replies.drop_last() =~= seq![reply] + later.drop_last());
        lemma_state_after_first(machine, reply, later.drop_last());
    }
}

/// Each pass but the innermost stands at the loop whose body the next pass
/// runs; `body` is the list that the innermost pass runs.
pub open spec fn nested(outer: Seq<FrameView>, body: Seq<CommandView>) -> bool
    decreases outer.len(),
{
    outer.len() > 0 ==> {
        &&& outer.last().current.command_type == CommandTypeView::Loop(body)
        &&& nested(outer.drop_last(), outer.last().body)
    }
}

/// No loop occurs in the command.
pub open spec fn loop_free(command: CommandView) -> bool
    decreases command,
{
    match command.command_type {
        CommandTypeView::Loop(_) => false,
        CommandTypeView::Recursive(inner) => loop_free(*inner),
        _ => true,
    }
}

/// No loop occurs in the commands of the list.
pub open spec fn all_loop_free(commands: Seq<CommandView>) -> bool {
    forall|i: int| 0 <= i < commands.len() ==> loop_free(#[trigger] commands[i])
}

impl MachineView {
    /// What holds of every state that a run can reach.
    pub open spec fn wf(self) -> bool {
        match self {
            MachineView::Running { outer, top, pending } => {
                &&& nested(outer, top.body)
                &&& expects(top.current.command_type, pending)
                &&& needs_selector(top.current.command_type) ==> top.current.selector is Some
            },
            MachineView::Retrying { outer, body } => outer.len() > 0 && nested(outer, body),
            MachineView::Finished { .. } => true,
        }
    }

    /// The run is outside every loop and has no loop before it.
    pub open spec fn flat(self) -> bool {
        match self {
            MachineView::Running { outer, top, pending } => {
                &&& outer.len() == 0
                &&& loop_free(top.current)
                &&& all_loop_free(top.rest)
            },
            MachineView::Retrying { .. } => false,
            MachineView::Finished { .. } => true,
        }
    }
}

} // verus!
