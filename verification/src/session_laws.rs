//! What holds of every session, whatever the outside world reports and in
//! whatever order: the laws of the supervisor, proved from its rule.

use crate::exit_status::exit_success;
use crate::session::{react, ActionView, EventView, LifecycleView, NoticeView, Pty, SessionView};
use vstd::prelude::*;

verus! {

/// A session as it is requested: nothing allocated, no child yet.
pub open spec fn requested(
    title: Seq<char>,
    command: Seq<char>,
    args: Seq<Seq<char>>,
) -> SessionView {
    SessionView { title, command, args, state: LifecycleView::Spawning { pty: None } }
}

/// The session and all the actions asked for, in order, after the notices
/// `notices` have been taken one by one, starting from `s`.
pub open spec fn run(s: SessionView, notices: Seq<NoticeView>) -> (SessionView, Seq<ActionView>)
    decreases notices.len(),
{
    if notices.len() == 0 {
        (s, Seq::empty())
    } else {
        let before = run(s, notices.drop_last());
        let last = react(before.0, notices.last());
        (last.0, before.1 + last.1)
    }
}

/// The events that the consumer sees when `actions` are performed, in order.
pub open spec fn emitted(actions: Seq<ActionView>) -> Seq<EventView>
    decreases actions.len(),
{
    if actions.len() == 0 {
        Seq::empty()
    } else {
        match actions.last() {
            ActionView::Emit { event } => emitted(actions.drop_last()).push(event),
            _ => emitted(actions.drop_last()),
        }
    }
}

/// Whether `action` delivers the final event of a session.
pub open spec fn is_final(action: ActionView) -> bool {
    action matches ActionView::Emit { event } && event is Finished
}

/// How many times `actions` close the descriptor `fd`.
pub open spec fn closes(actions: Seq<ActionView>, fd: i32) -> nat
    decreases actions.len(),
{
    if actions.len() == 0 {
        0
    } else {
        closes(actions.drop_last(), fd) + if actions.last() == (ActionView::CloseDescriptor {
            fd,
        }) {
            1nat
        } else {
            0nat
        }
    }
}

/// How many times the descriptor `fd` occurs among the two of `pty`.
pub open spec fn sides(pty: Pty, fd: i32) -> nat {
    (if pty.master == fd {
        1nat
    } else {
        0nat
    }) + (if pty.slave == fd {
        1nat
    } else {
        0nat
    })
}

/// How many times a session in `state` holds the descriptor `fd`.
pub open spec fn holds(state: LifecycleView, fd: i32) -> nat {
    match state {
        LifecycleView::Spawning { pty: Some(pty) } => sides(pty, fd),
        LifecycleView::Running { master, .. } => if master == fd {
            1
        } else {
            0
        },
        _ => 0,
    }
}

/// How many times the descriptor `fd` is handed to the session `s` by the
/// notice `n`: a pseudo-terminal is taken only while none is held and no
/// child runs.
pub open spec fn hands_over(s: SessionView, n: NoticeView, fd: i32) -> nat {
    match (s.state, n) {
        (LifecycleView::Spawning { pty: None }, NoticeView::PtyAllocated { pty }) => sides(
            pty,
            fd,
        ),
        _ => 0,
    }
}

/// How many times the descriptor `fd` is handed to the session over the
/// whole run of `notices` from `s`.
pub open spec fn handed_over(s: SessionView, notices: Seq<NoticeView>, fd: i32) -> nat
    decreases notices.len(),
{
    if notices.len() == 0 {
        0
    } else {
        handed_over(s, notices.drop_last(), fd) + hands_over(
            run(s, notices.drop_last()).0,
            notices.last(),
            fd,
        )
    }
}

/// The events of two lists of actions, one after the other, are the events
/// of the first and then those of the second.
proof fn lemma_emitted_concat(a: Seq<ActionView>, b: Seq<ActionView>)
    ensures
        emitted(a + b) == emitted(a) + emitted(b),
    decreases b.len(),
{
    if b.len() > 0 {
        assert((a + b).drop_last() =~= a + b.drop_last());
        lemma_emitted_concat(a, b.drop_last());
    }
}

/// Two lists of actions, one after the other, close a descriptor as often
/// as both together.
proof fn lemma_closes_concat(a: Seq<ActionView>, b: Seq<ActionView>, fd: i32)
    ensures
        closes(a + b, fd) == closes(a, fd) + closes(b, fd),
    decreases b.len(),
{
    if b.len() > 0 {
        assert((a + b).drop_last() =~= a + b.drop_last());
        lemma_closes_concat(a, b.drop_last(), fd);
    }
}

/// A state that is final stays as it is: whatever is reported afterwards,
/// typed input included, is accepted, changes nothing and asks for nothing.
pub proof fn law_terminal_states_are_final(s: SessionView, n: NoticeView)
    requires
        s.state.is_terminal(),
    ensures
        react(s, n) == (s, Seq::<ActionView>::empty()),
{
}

/// After the end of a session no run of notices has any effect.
pub proof fn law_nothing_follows_the_end(s: SessionView, notices: Seq<NoticeView>)
    requires
        s.state.is_terminal(),
    ensures
        run(s, notices) == (s, Seq::<ActionView>::empty()),
    decreases notices.len(),
{
    if notices.len() > 0 {
        law_nothing_follows_the_end(s, notices.drop_last());
        assert(Seq::<ActionView>::empty() + Seq::<ActionView>::empty() =~= Seq::<
            ActionView,
        >::empty());
    }
}

/// Typed input is passed on only while the child runs and the input queue is
/// open; at any other time it is dropped without a trace.
pub proof fn law_input_outside_a_running_session_is_dropped(s: SessionView, line: Seq<char>)
    ensures
        (s.state matches LifecycleView::Running { input_open: true, .. }) ==> react(
            s,
            NoticeView::Input { line },
        ) == (s, seq![ActionView::QueueInput { line }]),
        !(s.state matches LifecycleView::Running { input_open: true, .. }) ==> react(
            s,
            NoticeView::Input { line },
        ) == (s, Seq::<ActionView>::empty()),
{
}

/// The shape of what one step asks for: it delivers the final event exactly
/// when it moves the session into a final state, as its very last action and
/// with the outcome that the state records; a session that never ran ends
/// with a failure.
proof fn lemma_step_shape(s: SessionView, n: NoticeView)
    requires
        !s.state.is_terminal(),
    ensures
        ({
            let next = react(s, n).0;
            let asked = react(s, n).1;
            &&& forall|i: int| 0 <= i < asked.len() && is_final(#[trigger] asked[i]) ==> i + 1 == asked.len()
            &&& next.state.is_terminal() <==> (asked.len() > 0 && is_final(asked.last()))
            &&& next.state matches LifecycleView::Finished { success } ==> asked.last() == (
            ActionView::Emit { event: EventView::Finished { success } })
            &&& next.state is Failed ==> asked.last() == (ActionView::Emit {
                event: EventView::Finished { success: false },
            })
        }),
{
}

/// The final event comes once and last.  Over any run of a session that had
/// not ended before: no action follows the delivery of the final event, so it
/// is delivered at most once and every output event, every close and every
/// join precedes it; it has been delivered exactly when the session is in a
/// final state; and it carries the outcome that the state records.
pub proof fn law_final_event_is_single_and_last(s: SessionView, notices: Seq<NoticeView>)
    requires
        !s.state.is_terminal(),
    ensures
        ({
            let end = run(s, notices).0;
            let asked = run(s, notices).1;
            &&& forall|i: int| 0 <= i < asked.len() && is_final(#[trigger] asked[i]) ==> i + 1 == asked.len()
            &&& end.state.is_terminal() <==> (asked.len() > 0 && is_final(asked.last()))
            &&& end.state matches LifecycleView::Finished { success } ==> asked.last() == (
            ActionView::Emit { event: EventView::Finished { success } })
            &&& end.state is Failed ==> asked.last() == (ActionView::Emit {
                event: EventView::Finished { success: false },
            })
        }),
    decreases notices.len(),
{
    if notices.len() > 0 {
        let before = run(s, notices.drop_last());
        law_final_event_is_single_and_last(s, notices.drop_last());
        if before.0.state.is_terminal() {
            law_terminal_states_are_final(before.0, notices.last());
            assert(before.1 + Seq::<ActionView>::empty() =~= before.1);
        } else {
            lemma_step_shape(before.0, notices.last());
            let last = react(before.0, notices.last());
            let asked = before.1 + last.1;
            assert forall|i: int| 0 <= i < asked.len() && is_final(#[trigger] asked[i]) implies i
                + 1 == asked.len() by {
                if i < before.1.len() {
                    assert(asked[i] == before.1[i]);
                } else {
                    assert(asked[i] == last.1[i - before.1.len()]);
                }
            }
            if last.1.len() > 0 {
                assert(asked.last() == last.1.last());
            } else {
                assert(asked =~= before.1);
            }
        }
    }
}

/// A child that exits with code 0 ends the session with success: once the
/// exit of a running session is reported, the consumer's last event is
/// `Finished` with `success` set, and no other `Finished` event was ever
/// delivered.
pub proof fn law_exit_code_zero_is_success(
    s: SessionView,
    notices: Seq<NoticeView>,
    status: i32,
)
    requires
        !s.state.is_terminal(),
        run(s, notices).0.state is Running,
        exit_success(status),
    ensures
        ({
            let seen = emitted(run(s, notices.push(NoticeView::ChildExited { status })).1);
            &&& seen.len() > 0
            &&& seen.last() == (EventView::Finished { success: true })
            &&& forall|i: int| 0 <= i < seen.len() - 1 ==> !(#[trigger] seen[i] is Finished)
        }),
{
    lemma_exit_ends_the_session(s, notices, NoticeView::ChildExited { status }, true);
}

/// A child that ends in any other way ends the session with failure: once
/// the end of a running session is reported with a status that is not a
/// normal exit with code 0, the consumer's last event is `Finished` with
/// `success` cleared, and no other `Finished` event was ever delivered.
pub proof fn law_other_exit_is_failure(s: SessionView, notices: Seq<NoticeView>, status: i32)
    requires
        !s.state.is_terminal(),
        run(s, notices).0.state is Running,
        !exit_success(status),
    ensures
        ({
            let seen = emitted(run(s, notices.push(NoticeView::ChildExited { status })).1);
            &&& seen.len() > 0
            &&& seen.last() == (EventView::Finished { success: false })
            &&& forall|i: int| 0 <= i < seen.len() - 1 ==> !(#[trigger] seen[i] is Finished)
        }),
{
    lemma_exit_ends_the_session(s, notices, NoticeView::ChildExited { status }, false);
}

/// A child that cannot be waited for still ends the session, with failure.
pub proof fn law_unreachable_child_is_failure(s: SessionView, notices: Seq<NoticeView>)
    requires
        !s.state.is_terminal(),
        run(s, notices).0.state is Running,
    ensures
        ({
            let seen = emitted(run(s, notices.push(NoticeView::ChildUnreachable)).1);
            &&& seen.len() > 0
            &&& seen.last() == (EventView::Finished { success: false })
            &&& forall|i: int| 0 <= i < seen.len() - 1 ==> !(#[trigger] seen[i] is Finished)
        }),
{
    lemma_exit_ends_the_session(s, notices, NoticeView::ChildUnreachable, false);
}

/// No event of a run that has not reached a final state is `Finished`.
proof fn lemma_no_final_event_before_the_end(s: SessionView, notices: Seq<NoticeView>)
    requires
        !s.state.is_terminal(),
        !run(s, notices).0.state.is_terminal(),
    ensures
        forall|i: int|
            0 <= i < emitted(run(s, notices).1).len() ==> !(#[trigger] emitted(
                run(s, notices).1,
            )[i] is Finished),
{
    law_final_event_is_single_and_last(s, notices);
    lemma_emitted_has_no_final(run(s, notices).1);
}

/// Actions none of which delivers the final event show no `Finished` event.
proof fn lemma_emitted_has_no_final(actions: Seq<ActionView>)
    requires
        forall|i: int| 0 <= i < actions.len() ==> !is_final(#[trigger] actions[i]),
    ensures
        forall|i: int| 0 <= i < emitted(actions).len() ==> !(#[trigger] emitted(actions)[i] is Finished),
    decreases actions.len(),
{
    if actions.len() > 0 {
        assert forall|i: int| 0 <= i < actions.drop_last().len() implies !is_final(
            #[trigger] actions.drop_last()[i],
        ) by {}
        lemma_emitted_has_no_final(actions.drop_last());
    }
}

/// The end of the child, however it is reported, ends a running session
/// with one final event, last, that carries the outcome.
proof fn lemma_exit_ends_the_session(
    s: SessionView,
    notices: Seq<NoticeView>,
    end: NoticeView,
    success: bool,
)
    requires
        !s.state.is_terminal(),
        run(s, notices).0.state is Running,
        end is ChildUnreachable || end is ChildExited,
        success == (end matches NoticeView::ChildExited { status } && exit_success(status)),
    ensures
        ({
            let seen = emitted(run(s, notices.push(end)).1);
            &&& seen.len() > 0
            &&& seen.last() == (EventView::Finished { success })
            &&& forall|i: int| 0 <= i < seen.len() - 1 ==> !(#[trigger] seen[i] is Finished)
        }),
{
    let before = run(s, notices);
    let last = react(before.0, end);
    assert(notices.push(end).drop_last() =~= notices);
    assert(run(s, notices.push(end)).1 == before.1 + last.1);
    lemma_no_final_event_before_the_end(s, notices);
    lemma_emitted_concat(before.1, last.1);
    let master = before.0.state->Running_master;
    assert(last.1 == crate::session::cleanup_actions(master, success));
    reveal_with_fuel(emitted, 7);
    assert(emitted(last.1) =~= seq![EventView::Finished { success }]);
    let seen = emitted(before.1) + emitted(last.1);
    assert(seen.last() == (EventView::Finished { success }));
    assert forall|i: int| 0 <= i < seen.len() - 1 implies !(#[trigger] seen[i] is Finished) by {
        assert(seen[i] == emitted(before.1)[i]);
    }
}

/// Cancelling signals the recorded child and nobody else.  On a running
/// session the cancel request asks for exactly two things, the termination
/// signal to the child's process identifier and the closing of the input
/// queue; it does not end the session, which goes on waiting for the same
/// child with the same descriptor, and it makes up no outcome.
pub proof fn law_cancel_signals_the_recorded_child(s: SessionView)
    requires
        s.state is Running,
    ensures
        ({
            let master = s.state->Running_master;
            let child = s.state->Running_child;
            &&& react(s, NoticeView::Cancel).1 == seq![
                ActionView::Terminate { pid: child },
                ActionView::CloseInput,
            ]
            &&& react(s, NoticeView::Cancel).0 == (SessionView {
                state: LifecycleView::Running { master, child, input_open: false },
                ..s
            })
        }),
{
}

/// The child that a running session records is the one whose creation was
/// reported: the process identifier held while running came with a `Spawned`
/// notice of the run.
pub proof fn law_recorded_child_was_spawned(s: SessionView, notices: Seq<NoticeView>)
    requires
        s.state == (LifecycleView::Spawning { pty: None }),
        run(s, notices).0.state is Running,
    ensures
        exists|i: int|
            0 <= i < notices.len() && #[trigger] notices[i] == (NoticeView::Spawned {
                pid: run(s, notices).0.state->Running_child,
            }),
    decreases notices.len(),
{
    if notices.len() > 0 {
        let before = run(s, notices.drop_last()).0;
        let child = run(s, notices).0.state->Running_child;
        if before.state is Running {
            law_recorded_child_was_spawned(s, notices.drop_last());
            let i = choose|i: int|
                0 <= i < notices.drop_last().len() && #[trigger] notices.drop_last()[i] == (
                NoticeView::Spawned { pid: child });
            assert(notices[i] == notices.drop_last()[i]);
        } else {
            assert(notices[notices.len() - 1] == (NoticeView::Spawned { pid: child }));
        }
    }
}

/// After a cancel, the end of the child is taken as any other: a child that
/// the signal ended, or that ended in any way but a normal exit with code 0,
/// gives the final event `Finished` with `success` cleared, as the last
/// event and the only one of its kind.
pub proof fn law_cancelled_session_ends_in_failure(
    s: SessionView,
    notices: Seq<NoticeView>,
    status: i32,
)
    requires
        !s.state.is_terminal(),
        run(s, notices).0.state is Running,
        !exit_success(status),
    ensures
        ({
            let seen = emitted(
                run(
                    s,
                    notices.push(NoticeView::Cancel).push(NoticeView::ChildExited { status }),
                ).1,
            );
            &&& seen.len() > 0
            &&& seen.last() == (EventView::Finished { success: false })
            &&& forall|i: int| 0 <= i < seen.len() - 1 ==> !(#[trigger] seen[i] is Finished)
        }),
{
    let cancelled = notices.push(NoticeView::Cancel);
    assert(cancelled.drop_last() =~= notices);
    law_cancel_signals_the_recorded_child(run(s, notices).0);
    law_other_exit_is_failure(s, cancelled, status);
}

/// One step neither loses a descriptor nor closes one twice.
proof fn lemma_step_balances_descriptors(s: SessionView, n: NoticeView, fd: i32)
    ensures
        holds(s.state, fd) + hands_over(s, n, fd) == holds(react(s, n).0.state, fd) + closes(
            react(s, n).1,
            fd,
        ),
{
    reveal_with_fuel(closes, 7);
}

/// No descriptor is lost and none is closed twice.  Over any run, each
/// descriptor was closed as often as it was handed to the session, less the
/// times the session still holds it; and a session in a final state holds
/// none.  So when a session has ended, every descriptor it was given has been
/// closed exactly once for each time it was given.
pub proof fn law_descriptors_are_closed_once(s: SessionView, notices: Seq<NoticeView>, fd: i32)
    ensures
        holds(s.state, fd) + handed_over(s, notices, fd) == holds(run(s, notices).0.state, fd)
            + closes(run(s, notices).1, fd),
        run(s, notices).0.state.is_terminal() ==> holds(run(s, notices).0.state, fd) == 0,
    decreases notices.len(),
{
    if notices.len() > 0 {
        let before = run(s, notices.drop_last());
        law_descriptors_are_closed_once(s, notices.drop_last(), fd);
        lemma_step_balances_descriptors(before.0, notices.last(), fd);
        lemma_closes_concat(before.1, react(before.0, notices.last()).1, fd);
    }
}

/// A session is given a pseudo-terminal at most once.
pub proof fn law_one_terminal_per_session(s: SessionView, notices: Seq<NoticeView>, fd: i32)
    requires
        s.state == (LifecycleView::Spawning { pty: None }),
    ensures
        handed_over(s, notices, fd) <= 2,
        handed_over(s, notices, fd) > 0 ==> !(run(s, notices).0.state == (
        LifecycleView::Spawning { pty: None })),
    decreases notices.len(),
{
    if notices.len() > 0 {
        law_one_terminal_per_session(s, notices.drop_last(), fd);
        let before = run(s, notices.drop_last()).0;
        if !(before.state == (LifecycleView::Spawning { pty: None })) {
            lemma_never_back_to_the_start(before, notices.last());
        }
    }
}

/// No step leads back to the state in which nothing is allocated.
proof fn lemma_never_back_to_the_start(s: SessionView, n: NoticeView)
    requires
        !(s.state == (LifecycleView::Spawning { pty: None })),
    ensures
        !(react(s, n).0.state == (LifecycleView::Spawning { pty: None })),
{
}

} // verus!
