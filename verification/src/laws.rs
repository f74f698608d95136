//! What holds of every run: the laws of failing, retrying and of the
//! context, proved of the state machine in [`crate::machine`].

use vstd::prelude::*;
use crate::command::{CommandTypeView, CommandView};
use crate::error::RunErrorView;
use crate::machine::{
    actions_of, all_loop_free, begin, emit, enter, fail, finish, first_frame, inner_frame,
    leave, lemma_state_after_first, loop_free, nested, next_frame, proceed, retry_notice, size,
    size_seq, start, state_after, step, weight, FrameView, MachineView,
};
use crate::protocol::{
    context_after, failure, needs_element, needs_selector, react, snapshot, PendingView,
};
use crate::session::{ActionView, ElementHandle, ReplyView};

verus! {

proof fn lemma_begin_wf(outer: Seq<FrameView>, top: FrameView)
    requires
        nested(outer, top.body),
    ensures
        begin(outer, top).0.wf(),
    decreases weight(outer) + size(top.current) + size_seq(top.rest) + 1, 0nat,
{
    match top.current.command_type {
        CommandTypeView::Loop(body) => {
            assert(outer.push(top).drop_last() =~= outer);
            lemma_enter_wf(outer.push(top), body);
        },
        _ => {},
    }
}

proof fn lemma_proceed_wf(outer: Seq<FrameView>, top: FrameView, context: Option<ElementHandle>)
    requires
        nested(outer, top.body),
    ensures
        proceed(outer, top, context).0.wf(),
    decreases weight(outer) + size_seq(top.rest) + 1, 1nat,
{
    if top.rest.len() > 0 {
        lemma_begin_wf(outer, next_frame(top, context));
    } else {
        lemma_leave_wf(outer, top.body);
    }
}

proof fn lemma_enter_wf(outer: Seq<FrameView>, body: Seq<CommandView>)
    requires
        nested(outer, body),
    ensures
        enter(outer, body).0.wf(),
    decreases weight(outer) + size_seq(body) + 1, 1nat,
{
    if body.len() > 0 {
        lemma_begin_wf(outer, first_frame(body));
    } else {
        lemma_leave_wf(outer, body);
    }
}

proof fn lemma_leave_wf(outer: Seq<FrameView>, body: Seq<CommandView>)
    requires
        nested(outer, body),
    ensures
        leave(outer).0.wf(),
    decreases weight(outer), 2nat,
{
    if outer.len() > 0 {
        lemma_proceed_wf(outer.drop_last(), outer.last(), outer.last().context);
    }
}

/// A run starts in a well-formed state.
pub proof fn law_start_wf(script: Seq<CommandView>)
    ensures
        start(script).0.wf(),
{
    lemma_enter_wf(Seq::empty(), script);
}

/// No reply leads a run out of the well-formed states.
pub proof fn law_step_wf(machine: MachineView, reply: ReplyView)
    requires
        machine.wf(),
    ensures
        step(machine, reply).0.wf(),
{
    match machine {
        MachineView::Running { outer, top, pending } => {
            lemma_enter_wf(outer, top.body);
            lemma_proceed_wf(outer, top, context_after(top.current.command_type, top.context));
            match top.current.command_type {
                CommandTypeView::Recursive(inner) => {
                    lemma_begin_wf(outer, inner_frame(top, *inner, reply->Element_0));
                },
                _ => {},
            }
        },
        MachineView::Retrying { outer, body } => {
            lemma_enter_wf(outer, body);
        },
        MachineView::Finished { .. } => {},
    }
}

/// A run that has ended stays ended: whatever is handed in, the state does
/// not change and the action is `Finish` with the result of the run.
pub proof fn law_finished_stays(result: Result<(), RunErrorView>, replies: Seq<ReplyView>)
    ensures
        state_after(MachineView::Finished { result }, replies) == (MachineView::Finished {
            result,
        }),
        forall|i: int|
            0 <= i < replies.len() ==> #[trigger] actions_of(
                MachineView::Finished { result },
                replies,
            )[i] == (ActionView::Finish { result }),
    decreases replies.len(),
{
    let ended = MachineView::Finished { result };
    if replies.len() > 0 {
        law_finished_stays(result, replies.drop_last());
    }
    assert forall|i: int| 0 <= i < replies.len() implies #[trigger] actions_of(ended, replies)[i]
        == (ActionView::Finish { result }) by {
        law_finished_stays(result, replies.take(i));
    }
}

proof fn lemma_ended_by(
    machine: MachineView,
    reply: ReplyView,
    error: RunErrorView,
    later: Seq<ReplyView>,
)
    requires
        step(machine, reply) == finish(Err(error)),
    ensures
        state_after(machine, seq![reply] + later) == (MachineView::Finished {
            result: Err(error),
        }),
        forall|i: int|
            0 <= i <= later.len() ==> #[trigger] actions_of(machine, seq![reply] + later)[i] == (
            ActionView::Finish { result: Err(error) }),
{
    let replies = seq![reply] + later;
    lemma_state_after_first(machine, reply, later);
    law_finished_stays(Err(error), later);
    assert forall|i: int| 0 <= i <= later.len() implies #[trigger] actions_of(machine, replies)[i]
        == (ActionView::Finish { result: Err(error) }) by {
        if i == 0 {
            assert(replies.take(0) =~= Seq::empty());
        } else {
            assert(replies.take(i) =~= seq![reply] + later.take(i - 1));
            lemma_state_after_first(machine, reply, later.take(i - 1));
            law_finished_stays(Err(error), later.take(i - 1));
        }
    }
}

/// A command that cannot start without a selector, and has none, fails
/// before it asks for any action; outside every loop that ends the run.
pub proof fn law_missing_selector(outer: Seq<FrameView>, top: FrameView)
    requires
        needs_selector(top.current.command_type),
        top.current.selector is None,
    ensures
        begin(outer, top) == fail(outer, top.body, RunErrorView::MissingSelector),
        outer.len() == 0 ==> begin(outer, top) == finish(Err(RunErrorView::MissingSelector)),
{
}

/// Fail-fast. Outside every loop, the reply that makes the command in
/// progress fail ends the run with that failure: it and every reply after it
/// are answered by `Finish` with the failure, so that no later command of
/// the script is ever started.
pub proof fn law_fail_fast(
    top: FrameView,
    pending: PendingView,
    reply: ReplyView,
    error: RunErrorView,
    later: Seq<ReplyView>,
)
    requires
        failure(top.current, pending, reply) == Some(error),
    ensures
        ({
            let machine = MachineView::Running { outer: Seq::empty(), top, pending };
            &&& state_after(machine, seq![reply] + later) == (MachineView::Finished {
                result: Err(error),
            })
            &&& forall|i: int|
                0 <= i <= later.len() ==> #[trigger] actions_of(machine, seq![reply] + later)[i]
                    == (ActionView::Finish { result: Err(error) })
        }),
{
    let machine = MachineView::Running { outer: Seq::empty(), top, pending };
    lemma_ended_by(machine, reply, error, later);
}

proof fn lemma_begin_flat(top: FrameView)
    requires
        loop_free(top.current),
        all_loop_free(top.rest),
    ensures
        begin(Seq::empty(), top).0.flat(),
{
}

proof fn lemma_proceed_flat(top: FrameView, context: Option<ElementHandle>)
    requires
        all_loop_free(top.rest),
    ensures
        proceed(Seq::empty(), top, context).0.flat(),
{
    if top.rest.len() > 0 {
        let next = next_frame(top, context);
        assert forall|i: int| 0 <= i < next.rest.len() implies loop_free(
            #[trigger] next.rest[i],
        ) by {
            assert(next.rest[i] == top.rest[i + 1]);
        }
        lemma_begin_flat(next);
    }
}

/// A script without loops runs outside every loop from its start.
pub proof fn law_flat_start(script: Seq<CommandView>)
    requires
        all_loop_free(script),
    ensures
        start(script).0.flat(),
{
    if script.len() > 0 {
        let first = first_frame(script);
        assert forall|i: int| 0 <= i < first.rest.len() implies loop_free(
            #[trigger] first.rest[i],
        ) by {
            assert(first.rest[i] == script[i + 1]);
        }
        lemma_begin_flat(first);
    }
}

/// A run outside every loop with no loop before it stays so, whatever the
/// replies.
pub proof fn law_flat_stays(machine: MachineView, reply: ReplyView)
    requires
        machine.flat(),
    ensures
        step(machine, reply).0.flat(),
{
    match machine {
        MachineView::Running { outer, top, pending } => {
            assert(outer =~= Seq::empty());
            lemma_proceed_flat(top, context_after(top.current.command_type, top.context));
            match top.current.command_type {
                CommandTypeView::Recursive(inner) => {
                    lemma_begin_flat(inner_frame(top, *inner, reply->Element_0));
                },
                _ => {},
            }
        },
        MachineView::Retrying { .. } => {},
        MachineView::Finished { .. } => {},
    }
}

/// A fatal failure ends the run on its first occurrence, inside however many
/// loops: it and every reply after it are answered by `Finish` with the
/// failure, and no loop starts over.
pub proof fn law_fatal_aborts(
    outer: Seq<FrameView>,
    top: FrameView,
    pending: PendingView,
    reply: ReplyView,
    error: RunErrorView,
    later: Seq<ReplyView>,
)
    requires
        failure(top.current, pending, reply) == Some(error),
        error.is_fatal(),
    ensures
        ({
            let machine = MachineView::Running { outer, top, pending };
            &&& state_after(machine, seq![reply] + later) == (MachineView::Finished {
                result: Err(error),
            })
            &&& forall|i: int|
                0 <= i <= later.len() ==> #[trigger] actions_of(machine, seq![reply] + later)[i]
                    == (ActionView::Finish { result: Err(error) })
        }),
{
    let machine = MachineView::Running { outer, top, pending };
    lemma_ended_by(machine, reply, error, later);
}

/// Only the session's own word that the session or the window is gone is
/// fatal: a failure of any other kind, a missing selector, a window that is
/// not open and a reply of the wrong shape are not.
pub proof fn law_fatal_kinds(error: RunErrorView)
    ensures
        error.is_fatal() <==> (error matches RunErrorView::Session(e) && (e.kind
            is SessionInvalid || e.kind is WindowClosed)),
{
}

/// Retry. Inside a loop, a failure that is not fatal is answered by the
/// notice of a retry and nothing else; and whatever answers the notice, the
/// innermost loop then starts over: the run does what it does when it begins
/// that loop, from the first command of the body and with no context. No
/// count is kept, so this holds of every pass alike.
pub proof fn law_retry_restarts(
    outer: Seq<FrameView>,
    top: FrameView,
    pending: PendingView,
    reply: ReplyView,
    error: RunErrorView,
    ack: ReplyView,
)
    requires
        (MachineView::Running { outer, top, pending }).wf(),
        outer.len() > 0,
        failure(top.current, pending, reply) == Some(error),
        !error.is_fatal(),
    ensures
        ({
            let retrying = MachineView::Retrying { outer, body: top.body };
            &&& step(MachineView::Running { outer, top, pending }, reply) == (
                retrying,
                ActionView::Log { text: retry_notice(error) },
            )
            &&& step(retrying, ack) == enter(outer, top.body)
            &&& step(retrying, ack) == begin(outer.drop_last(), outer.last())
        }),
{
    assert(outer.drop_last().push(outer.last()) =~= outer);
}

/// A loop whose body has run to its end is done, and leaves the context of
/// the pass around it as it was, whatever the last command of the body
/// leaves.
pub proof fn law_loop_done(outer: Seq<FrameView>, top: FrameView, context: Option<ElementHandle>)
    requires
        outer.len() > 0,
        top.rest.len() == 0,
    ensures
        proceed(outer, top, context) == proceed(
            outer.drop_last(),
            outer.last(),
            outer.last().context,
        ),
{
    reveal_with_fuel(leave, 2);
}

/// A loop runs its body with no context, whatever the context of the loop
/// itself.
pub proof fn law_loop_fresh(outer: Seq<FrameView>, top: FrameView, body: Seq<CommandView>)
    requires
        top.current.command_type == CommandTypeView::Loop(body),
        body.len() > 0,
    ensures
        begin(outer, top) == begin(outer.push(top), first_frame(body)),
{
}

/// A command that works on an element looks it up by its selector, inside
/// the context where it has one and in the whole document where it has none.
pub proof fn law_lookup_in_context(outer: Seq<FrameView>, top: FrameView)
    requires
        needs_element(top.current.command_type),
        top.current.selector is Some,
    ensures
        begin(outer, top) == emit(
            outer,
            top,
            PendingView::Resolve,
            ActionView::Find { selector: top.current.selector->Some_0, within: top.context },
        ),
{
}

/// `Recursive` hands the element it has found to its inner command as the
/// context, and the inner command runs in the place of the outer one.
pub proof fn law_descend(
    outer: Seq<FrameView>,
    top: FrameView,
    inner: CommandView,
    element: ElementHandle,
)
    requires
        top.current.command_type == CommandTypeView::Recursive(Box::new(inner)),
    ensures
        step(
            MachineView::Running { outer, top, pending: PendingView::Resolve },
            ReplyView::Element(element),
        ) == begin(outer, inner_frame(top, inner, element)),
        inner_frame(top, inner, element).context == Some(element),
        inner_frame(top, inner, element).rest == top.rest,
{
}

/// Context threading. The reply that ends a command hands on to the next
/// command the context that the command itself leaves, and nothing older:
/// none after a command that works on an element, the command's own context
/// after any other.
pub proof fn law_context_threads(
    outer: Seq<FrameView>,
    top: FrameView,
    pending: PendingView,
    reply: ReplyView,
)
    requires
        react(top.current, pending, reply) is Done,
    ensures
        ({
            let context = context_after(top.current.command_type, top.context);
            &&& step(MachineView::Running { outer, top, pending }, reply) == proceed(
                outer,
                top,
                context,
            )
            &&& top.rest.len() > 0 ==> proceed(outer, top, context) == begin(
                outer,
                next_frame(top, context),
            )
            &&& next_frame(top, context).context == context
            &&& needs_element(top.current.command_type) ==> context is None
            &&& !needs_element(top.current.command_type) ==> context == top.context
        }),
{
}

/// The first round of a repeated click: the snapshot is taken before the
/// element is clicked, and again after the click.
pub proof fn law_click_first(
    outer: Seq<FrameView>,
    top: FrameView,
    element: ElementHandle,
    baseline: Seq<char>,
    ack: ReplyView,
)
    requires
        top.current.command_type is ClickUntilNavigation || top.current.command_type
            is ClickUntilDomChanged,
        !(ack is Failed),
    ensures
        step(
            MachineView::Running { outer, top, pending: PendingView::Resolve },
            ReplyView::Element(element),
        ) == emit(
            outer,
            top,
            PendingView::Baseline { element },
            snapshot(top.current.command_type),
        ),
        step(
            MachineView::Running { outer, top, pending: PendingView::Baseline { element } },
            ReplyView::Text(baseline),
        ) == emit(outer, top, PendingView::Clicking { baseline }, ActionView::Click { element }),
        step(
            MachineView::Running { outer, top, pending: PendingView::Clicking { baseline } },
            ack,
        ) == emit(
            outer,
            top,
            PendingView::Compare { baseline },
            snapshot(top.current.command_type),
        ),
        top.current.command_type is ClickUntilNavigation ==> snapshot(top.current.command_type)
            == ActionView::CurrentUrl,
        top.current.command_type is ClickUntilDomChanged ==> snapshot(top.current.command_type)
            == ActionView::PageSource,
{
}

/// A repeated click goes on while the page is as it was: on a snapshot equal
/// to the baseline the element is looked up again by the same selector, in
/// the whole document, then clicked, and the page is compared again with the
/// same baseline.
pub proof fn law_click_again(
    outer: Seq<FrameView>,
    top: FrameView,
    baseline: Seq<char>,
    selector: Seq<char>,
    element: ElementHandle,
    ack: ReplyView,
)
    requires
        top.current.selector == Some(selector),
        !(ack is Failed),
    ensures
        step(
            MachineView::Running { outer, top, pending: PendingView::Compare { baseline } },
            ReplyView::Text(baseline),
        ) == emit(
            outer,
            top,
            PendingView::Reresolve { baseline },
            ActionView::Find { selector, within: None },
        ),
        step(
            MachineView::Running { outer, top, pending: PendingView::Reresolve { baseline } },
            ReplyView::Element(element),
        ) == emit(outer, top, PendingView::Clicking { baseline }, ActionView::Click { element }),
        step(
            MachineView::Running { outer, top, pending: PendingView::Clicking { baseline } },
            ack,
        ) == emit(
            outer,
            top,
            PendingView::Compare { baseline },
            snapshot(top.current.command_type),
        ),
{
}

/// A repeated click stops at the first snapshot that differs from the
/// baseline: the command is done, with no further click, and leaves no
/// context.
pub proof fn law_click_until_change(
    outer: Seq<FrameView>,
    top: FrameView,
    baseline: Seq<char>,
    now: Seq<char>,
)
    requires
        top.current.command_type is ClickUntilNavigation || top.current.command_type
            is ClickUntilDomChanged,
        now != baseline,
    ensures
        step(
            MachineView::Running { outer, top, pending: PendingView::Compare { baseline } },
            ReplyView::Text(now),
        ) == proceed(outer, top, None),
{
}

} // verus!
