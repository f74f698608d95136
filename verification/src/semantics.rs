//! What a run of a script is, said without a machine.
//!
//! Here the browser session is the list of the replies that it is going to
//! give, and a run is told the way one would tell it: a command holds its
//! conversation, a list runs its commands one after the other, a loop runs
//! its body until a pass goes through. The result is the list of the actions
//! that the run asks for. [`law_machine_runs_the_script`] shows that the
//! state machine of [`crate::machine`] asks for exactly these.

use vstd::prelude::*;
use crate::command::{CommandTypeView, CommandView};
use crate::error::RunErrorView;
use crate::machine::{
    actions_of, begin, emit, enter, fail, finish, inner_frame, leave, lemma_state_after_first,
    next_frame, proceed, retry_notice, size, size_seq, start, step, FrameView, MachineView,
};
use crate::protocol::{context_after, needs_selector, opening, react, PendingView, Reaction};
use crate::session::{ActionView, ElementHandle, ReplyView};

verus! {

/// How a stretch of a run ends.
pub enum End {
    /// Its commands are done, and leave the context.
    Done { context: Option<ElementHandle> },
    /// One of its commands has failed.
    Failed { error: RunErrorView },
    /// The replies have run out: the last action has no answer.
    Open,
}

/// A stretch of a run: the actions that it asks for, the replies that it
/// leaves unread, and how it ends.
pub struct Stretch {
    pub actions: Seq<ActionView>,
    pub left: Seq<ReplyView>,
    pub end: End,
}

/// A stretch that asks for nothing.
pub open spec fn silent(left: Seq<ReplyView>, end: End) -> Stretch {
    Stretch { actions: Seq::empty(), left, end }
}

/// The stretch that asks for `actions` and then goes on as `then` does.
pub open spec fn after(actions: Seq<ActionView>, then: Stretch) -> Stretch {
    Stretch { actions: actions + then.actions, left: then.left, end: then.end }
}

/// The rest of the conversation of `command`, from the action in flight on.
///
/// The inner command of a `Recursive` is part of it.
pub open spec fn conclude(
    command: CommandView,
    context: Option<ElementHandle>,
    pending: PendingView,
    action: ActionView,
    replies: Seq<ReplyView>,
) -> Stretch
    decreases replies.len(), size(command), 0nat,
{
    if replies.len() == 0 {
        Stretch { actions: seq![action], left: replies, end: End::Open }
    } else {
        let left = replies.drop_first();
        after(
            seq![action],
            match react(command, pending, replies[0]) {
                Reaction::Next { pending, action } => conclude(
                    command,
                    context,
                    pending,
                    action,
                    left,
                ),
                Reaction::Done => silent(
                    left,
                    End::Done { context: context_after(command.command_type, context) },
                ),
                Reaction::Descend { inner, element } => execute(inner, Some(element), left),
                Reaction::Fail { error } => silent(left, End::Failed { error }),
            },
        )
    }
}

/// One command, from its start.
pub open spec fn execute(
    command: CommandView,
    context: Option<ElementHandle>,
    replies: Seq<ReplyView>,
) -> Stretch
    decreases replies.len(), size(command), 1nat,
{
    match command.command_type {
        CommandTypeView::Loop(body) => repeat(body, context, replies),
        kind => if needs_selector(kind) && command.selector is None {
            silent(replies, End::Failed { error: RunErrorView::MissingSelector })
        } else {
            let (pending, action) = opening(command, context);
            conclude(command, context, pending, action, replies)
        },
    }
}

/// The commands of a list, one after the other: each is given the context
/// that the one before it leaves, and the first failure is the end.
///
/// The comparison of lengths always holds, see [`law_replies_run_down`].
pub open spec fn run_list(
    commands: Seq<CommandView>,
    context: Option<ElementHandle>,
    replies: Seq<ReplyView>,
) -> Stretch
    decreases replies.len(), size_seq(commands), 2nat,
{
    if commands.len() == 0 {
        silent(replies, End::Done { context })
    } else {
        let first = execute(commands[0], context, replies);
        match first.end {
            End::Done { context: handed } => if first.left.len() <= replies.len() {
                proof {
                    assert(size(commands[0]) >= 1);
                }
                after(first.actions, run_list(commands.drop_first(), handed, first.left))
            } else {
                first
            },
            _ => first,
        }
    }
}

/// A loop: its body runs with no context, again and again, until a pass
/// goes through or fails fatally. After a pass that fails otherwise the
/// retry is logged, and the reply to that is not read. The loop leaves the
/// context that it was given.
///
/// The second comparison of lengths always holds, see
/// [`law_replies_run_down`]; where the first does not, no reply is left for
/// the notice.
pub open spec fn repeat(
    body: Seq<CommandView>,
    context: Option<ElementHandle>,
    replies: Seq<ReplyView>,
) -> Stretch
    decreases replies.len(), size_seq(body), 3nat,
{
    let pass = run_list(body, None, replies);
    match pass.end {
        End::Done { .. } => Stretch {
            actions: pass.actions,
            left: pass.left,
            end: End::Done { context },
        },
        End::Failed { error } => if error.is_fatal() {
            pass
        } else {
            let logged = pass.actions.push(ActionView::Log { text: retry_notice(error) });
            if 0 < pass.left.len() <= replies.len() {
                after(logged, repeat(body, context, pass.left.drop_first()))
            } else {
                Stretch { actions: logged, left: pass.left, end: End::Open }
            }
        },
        End::Open => pass,
    }
}

/// `Finish` with the result, once for each of a number of replies and once
/// before them.
pub open spec fn ended(result: Result<(), RunErrorView>, replies: nat) -> Seq<ActionView> {
    Seq::new(replies + 1, |i: int| ActionView::Finish { result })
}

/// The actions that a run of `script` asks for when the session answers with
/// `replies`: the first of them before any reply, and one more for each
/// reply. Once the script is done or has failed, that action is `Finish`.
pub open spec fn script_actions(script: Seq<CommandView>, replies: Seq<ReplyView>) -> Seq<
    ActionView,
> {
    let run = run_list(script, None, replies);
    match run.end {
        End::Done { .. } => run.actions + ended(Ok(()), run.left.len()),
        End::Failed { error } => run.actions + ended(Err(error), run.left.len()),
        End::Open => run.actions,
    }
}

/// The actions of a run from a turn on: the action of the turn, and the
/// action that answers each reply.
spec fn trace(turn: (MachineView, ActionView), replies: Seq<ReplyView>) -> Seq<
    ActionView,
> {
    seq![turn.1] + actions_of(turn.0, replies)
}

/// The actions of the machine after a stretch of the command in progress.
spec fn onward(outer: Seq<FrameView>, top: FrameView, stretch: Stretch) -> Seq<
    ActionView,
> {
    match stretch.end {
        End::Done { context } => trace(proceed(outer, top, context), stretch.left),
        End::Failed { error } => trace(fail(outer, top.body, error), stretch.left),
        End::Open => Seq::empty(),
    }
}

/// The actions of the machine after a stretch that is a whole pass through
/// `body`.
spec fn onward_of_pass(outer: Seq<FrameView>, body: Seq<CommandView>, stretch: Stretch) -> Seq<
    ActionView,
> {
    match stretch.end {
        End::Done { .. } => trace(leave(outer), stretch.left),
        End::Failed { error } => trace(fail(outer, body, error), stretch.left),
        End::Open => Seq::empty(),
    }
}

proof fn lemma_trace_unfold(turn: (MachineView, ActionView), replies: Seq<ReplyView>)
    ensures
        replies.len() == 0 ==> trace(turn, replies) == seq![turn.1],
        replies.len() > 0 ==> trace(turn, replies) == seq![turn.1] + trace(
            step(turn.0, replies[0]),
            replies.drop_first(),
        ),
{
    if replies.len() == 0 {
        assert(actions_of(turn.0, replies) =~= Seq::empty());
        assert(trace(turn, replies) =~= seq![turn.1]);
    } else {
        let next = step(turn.0, replies[0]);
        let later = replies.drop_first();
        let direct = actions_of(turn.0, replies);
        let unfolded = seq![next.1] + actions_of(next.0, later);
        assert(direct.len() == unfolded.len());
        assert forall|i: int| 0 <= i < direct.len() implies direct[i] == unfolded[i] by {
            if i == 0 {
                assert(replies.take(0) =~= Seq::empty());
            } else {
                assert(replies.take(i) =~= seq![replies[0]] + later.take(i - 1));
                lemma_state_after_first(turn.0, replies[0], later.take(i - 1));
                assert(replies[i] == later[i - 1]);
            }
        }
        assert(direct =~= unfolded);
    }
}

proof fn lemma_trace_ended(result: Result<(), RunErrorView>, replies: Seq<ReplyView>)
    ensures
        trace(finish(result), replies) == ended(result, replies.len()),
    decreases replies.len(),
{
    lemma_trace_unfold(finish(result), replies);
    if replies.len() > 0 {
        lemma_trace_ended(result, replies.drop_first());
        assert(seq![finish(result).1] + ended(result, replies.drop_first().len()) =~= ended(
            result,
            replies.len(),
        ));
    } else {
        assert(seq![finish(result).1] =~= ended(result, 0));
    }
}

proof fn lemma_conclude(
    outer: Seq<FrameView>,
    top: FrameView,
    pending: PendingView,
    action: ActionView,
    replies: Seq<ReplyView>,
)
    ensures
        ({
            let stretch = conclude(top.current, top.context, pending, action, replies);
            &&& trace(emit(outer, top, pending, action), replies) == stretch.actions + onward(
                outer,
                top,
                stretch,
            )
            &&& stretch.left.len() <= replies.len()
        }),
    decreases replies.len(), size(top.current), 0nat,
{
    let turn = emit(outer, top, pending, action);
    let stretch = conclude(top.current, top.context, pending, action, replies);
    lemma_trace_unfold(turn, replies);
    if replies.len() == 0 {
        assert(stretch.actions + onward(outer, top, stretch) =~= seq![action]);
    } else {
        let left = replies.drop_first();
        let next = step(turn.0, replies[0]);
        match react(top.current, pending, replies[0]) {
            Reaction::Next { pending: then, action: asked } => {
                lemma_conclude(outer, top, then, asked, left);
                let more = conclude(top.current, top.context, then, asked, left);
                assert(stretch.actions + onward(outer, top, stretch) =~= seq![action] + (
                more.actions + onward(outer, top, more)));
            },
            Reaction::Done => {
                assert(stretch.actions + onward(outer, top, stretch) =~= seq![action] + trace(
                    next,
                    left,
                ));
            },
            Reaction::Descend { inner, element } => {
                let child = inner_frame(top, inner, element);
                lemma_execute(outer, child, left);
                let more = execute(inner, Some(element), left);
                assert(onward(outer, child, more) == onward(outer, top, more));
                assert(stretch.actions + onward(outer, top, stretch) =~= seq![action] + (
                more.actions + onward(outer, child, more)));
            },
            Reaction::Fail { error } => {
                assert(stretch.actions + onward(outer, top, stretch) =~= seq![action] + trace(
                    next,
                    left,
                ));
            },
        }
    }
}

proof fn lemma_execute(outer: Seq<FrameView>, top: FrameView, replies: Seq<ReplyView>)
    ensures
        ({
            let stretch = execute(top.current, top.context, replies);
            &&& trace(begin(outer, top), replies) == stretch.actions + onward(outer, top, stretch)
            &&& stretch.left.len() <= replies.len()
        }),
    decreases replies.len(), size(top.current), 1nat,
{
    let stretch = execute(top.current, top.context, replies);
    match top.current.command_type {
        CommandTypeView::Loop(body) => {
            lemma_repeat(outer, top, body, replies);
        },
        kind => {
            if needs_selector(kind) && top.current.selector is None {
                assert(stretch.actions + onward(outer, top, stretch) =~= trace(
                    begin(outer, top),
                    replies,
                ));
            } else {
                let (pending, action) = opening(top.current, top.context);
                lemma_conclude(outer, top, pending, action, replies);
            }
        },
    }
}

proof fn lemma_run_list(
    outer: Seq<FrameView>,
    top: FrameView,
    context: Option<ElementHandle>,
    replies: Seq<ReplyView>,
)
    ensures
        ({
            let stretch = run_list(top.rest, context, replies);
            &&& trace(proceed(outer, top, context), replies) == stretch.actions + onward_of_pass(
                outer,
                top.body,
                stretch,
            )
            &&& stretch.left.len() <= replies.len()
        }),
    decreases replies.len(), size_seq(top.rest), 2nat,
{
    let stretch = run_list(top.rest, context, replies);
    if top.rest.len() == 0 {
        assert(stretch.actions + onward_of_pass(outer, top.body, stretch) =~= trace(
            proceed(outer, top, context),
            replies,
        ));
    } else {
        let next = next_frame(top, context);
        let first = execute(top.rest[0], context, replies);
        lemma_execute(outer, next, replies);
        match first.end {
            End::Done { context: handed } => {
                assert(size(top.rest[0]) >= 1);
                lemma_run_list(outer, next, handed, first.left);
                let more = run_list(next.rest, handed, first.left);
                assert(stretch.actions + onward_of_pass(outer, top.body, stretch) =~= first.actions
                    + (more.actions + onward_of_pass(outer, next.body, more)));
            },
            End::Failed { error } => {},
            End::Open => {},
        }
    }
}

proof fn lemma_repeat(
    outer: Seq<FrameView>,
    top: FrameView,
    body: Seq<CommandView>,
    replies: Seq<ReplyView>,
)
    requires
        top.current.command_type == CommandTypeView::Loop(body),
    ensures
        ({
            let stretch = repeat(body, top.context, replies);
            &&& trace(begin(outer, top), replies) == stretch.actions + onward(outer, top, stretch)
            &&& stretch.left.len() <= replies.len()
        }),
    decreases replies.len(), size_seq(body), 3nat,
{
    let inside = outer.push(top);
    assert(inside.drop_last() =~= outer);
    let stretch = repeat(body, top.context, replies);
    let pass = run_list(body, None, replies);
    let whole = FrameView { current: top.current, rest: body, body, context: None };
    lemma_run_list(inside, whole, None, replies);
    assert(proceed(inside, whole, None) == enter(inside, body));
    match pass.end {
        End::Done { .. } => {},
        End::Failed { error } => {
            if !error.is_fatal() {
                let retrying = fail(inside, body, error);
                lemma_trace_unfold(retrying, pass.left);
                if pass.left.len() > 0 {
                    let later = pass.left.drop_first();
                    lemma_repeat(outer, top, body, later);
                    let again = repeat(body, top.context, later);
                    assert(stretch.actions + onward(outer, top, stretch) =~= pass.actions + (
                    seq![retrying.1] + (again.actions + onward(outer, top, again))));
                } else {
                    assert(stretch.actions + onward(outer, top, stretch) =~= pass.actions
                        + seq![retrying.1]);
                }
            }
        },
        End::Open => {},
    }
}

/// The machine runs the script: whatever the session answers, the actions
/// that the state machine asks for, from its start on, are the actions that
/// a run of the script asks for.
pub proof fn law_machine_runs_the_script(script: Seq<CommandView>, replies: Seq<ReplyView>)
    ensures
        seq![start(script).1] + actions_of(start(script).0, replies) == script_actions(
            script,
            replies,
        ),
{
    let whole = FrameView {
        current: CommandView { selector: None, command_type: CommandTypeView::Check },
        rest: script,
        body: script,
        context: None,
    };
    let run = run_list(script, None, replies);
    lemma_run_list(Seq::empty(), whole, None, replies);
    assert(proceed(Seq::empty(), whole, None) == start(script));
    match run.end {
        End::Done { .. } => {
            lemma_trace_ended(Ok(()), run.left);
        },
        End::Failed { error } => {
            lemma_trace_ended(Err(error), run.left);
        },
        End::Open => {
            assert(run.actions + Seq::<ActionView>::empty() =~= run.actions);
        },
    }
}

/// A stretch leaves no more replies than it was given. The comparisons of
/// lengths in [`run_list`] and [`repeat`] only serve to show that the two
/// come to an end: they always hold.
pub proof fn law_replies_run_down(
    command: CommandView,
    commands: Seq<CommandView>,
    context: Option<ElementHandle>,
    replies: Seq<ReplyView>,
)
    ensures
        execute(command, context, replies).left.len() <= replies.len(),
        run_list(commands, context, replies).left.len() <= replies.len(),
        repeat(commands, context, replies).left.len() <= replies.len(),
{
    let at = FrameView { current: command, rest: commands, body: commands, context };
    let looping = FrameView {
        current: CommandView { selector: None, command_type: CommandTypeView::Loop(commands) },
        rest: commands,
        body: commands,
        context,
    };
    lemma_execute(Seq::empty(), at, replies);
    lemma_run_list(Seq::empty(), at, context, replies);
    lemma_repeat(Seq::empty(), looping, commands, replies);
}

/// Fail-fast. A list in which a command fails runs as if the commands after
/// that one were not there: they add no action, read no reply and do not
/// change the failure.
pub proof fn law_list_stops_at_failure(
    commands: Seq<CommandView>,
    later: Seq<CommandView>,
    context: Option<ElementHandle>,
    replies: Seq<ReplyView>,
)
    requires
        run_list(commands, context, replies).end is Failed,
    ensures
        run_list(commands + later, context, replies) == run_list(commands, context, replies),
    decreases commands.len(),
{
    if commands.len() > 0 {
        let all = commands + later;
        let first = execute(commands[0], context, replies);
        assert(all[0] == commands[0]);
        assert(all.drop_first() =~= commands.drop_first() + later);
        match first.end {
            End::Done { context: handed } => {
                if first.left.len() <= replies.len() {
                    law_list_stops_at_failure(commands.drop_first(), later, handed, first.left);
                }
            },
            _ => {},
        }
    }
}

/// Retry. After a pass through the body that fails, and not fatally, a loop
/// logs the retry and runs the whole body again, from its first command and
/// with no context, on the replies that are left after the reply to the
/// notice. Nothing counts the passes: the same holds of each.
pub proof fn law_loop_starts_over(
    body: Seq<CommandView>,
    context: Option<ElementHandle>,
    replies: Seq<ReplyView>,
    error: RunErrorView,
)
    requires
        run_list(body, None, replies).end == (End::Failed { error }),
        !error.is_fatal(),
        run_list(body, None, replies).left.len() > 0,
    ensures
        ({
            let pass = run_list(body, None, replies);
            repeat(body, context, replies) == after(
                pass.actions.push(ActionView::Log { text: retry_notice(error) }),
                repeat(body, context, pass.left.drop_first()),
            )
        }),
{
    law_replies_run_down(body[0], body, None, replies);
}

/// A fatal failure in its body is the end of a loop: the loop asks for
/// nothing more, not even the notice of a retry, and fails with it.
pub proof fn law_loop_gives_up(
    body: Seq<CommandView>,
    context: Option<ElementHandle>,
    replies: Seq<ReplyView>,
    error: RunErrorView,
)
    requires
        run_list(body, None, replies).end == (End::Failed { error }),
        error.is_fatal(),
    ensures
        repeat(body, context, replies) == run_list(body, None, replies),
{
}

/// A loop whose body goes through is done. It has run the body with no
/// context, and leaves the context that it was given.
pub proof fn law_loop_goes_through(
    body: Seq<CommandView>,
    context: Option<ElementHandle>,
    replies: Seq<ReplyView>,
)
    requires
        run_list(body, None, replies).end is Done,
    ensures
        ({
            let pass = run_list(body, None, replies);
            repeat(body, context, replies) == (Stretch {
                actions: pass.actions,
                left: pass.left,
                end: End::Done { context },
            })
        }),
{
}

} // verus!
