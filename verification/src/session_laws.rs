//! Session-level laws of the conversation driver, proved by induction
//! over traces of the spec transitions in [`crate::driver`].

use vstd::prelude::*;

use crate::driver::DriverView;
use crate::driver::MAX_TOOL_USE_RECURSIONS;
use crate::driver::Phase;
use crate::driver::TurnOutcomeView;
use crate::driver::FatalErrorView;
use crate::driver::end_stream_step;
use crate::driver::init_view;
use crate::driver::is_quit_line;
use crate::driver::tool_results_step;
use crate::driver::user_step;
use crate::message::MessageView;
use crate::message::Role;
use crate::message::StopReasonView;

verus! {

/// One complete turn without tool use: a prompt line is read and sent,
/// and the model's response ends with `EndTurn`, finalized as `m`.
pub open spec fn simple_turn(st: DriverView, line: Seq<char>, m: MessageView) -> DriverView {
    end_stream_step(user_step(st, Option::Some(line)).0, StopReasonView::EndTurn, m).0
}

/// A whole session of such turns, applied in order.
pub open spec fn run_simple_session(
    st: DriverView,
    turns: Seq<(Seq<char>, MessageView)>,
) -> DriverView
    decreases turns.len(),
{
    if turns.len() == 0 {
        st
    } else {
        run_simple_session(simple_turn(st, turns[0].0, turns[0].1), turns.skip(1))
    }
}

/// Roles strictly alternate, starting with the user.
pub open spec fn alternating(h: Seq<MessageView>) -> bool {
    forall|i: int|
        0 <= i < h.len() ==> h[i].role == (if i % 2 == 0 {
            Role::User
        } else {
            Role::Assistant
        })
}

/// Law: a session of `N` user turns with no tool use leaves a history of
/// exactly `2 * N` messages whose roles strictly alternate, and the
/// driver back at the prompt.
pub proof fn lemma_simple_session_history(turns: Seq<(Seq<char>, MessageView)>)
    requires
        forall|i: int|
            0 <= i < turns.len() ==> !is_quit_line(#[trigger] turns[i].0) && turns[i].1.role
                == Role::Assistant,
    ensures
        run_simple_session(init_view(), turns).phase == Phase::AwaitingUserInput,
        run_simple_session(init_view(), turns).history.len() == 2 * turns.len(),
        alternating(run_simple_session(init_view(), turns).history),
{
    lemma_simple_session_general(init_view(), turns);
}

/// Generalized induction behind [`lemma_simple_session_history`].
proof fn lemma_simple_session_general(st: DriverView, turns: Seq<(Seq<char>, MessageView)>)
    requires
        st.phase == Phase::AwaitingUserInput,
        st.history.len() % 2 == 0,
        alternating(st.history),
        forall|i: int|
            0 <= i < turns.len() ==> !is_quit_line(#[trigger] turns[i].0) && turns[i].1.role
                == Role::Assistant,
    ensures
        run_simple_session(st, turns).phase == Phase::AwaitingUserInput,
        run_simple_session(st, turns).history.len() == st.history.len() + 2 * turns.len(),
        alternating(run_simple_session(st, turns).history),
    decreases turns.len(),
{
    if turns.len() > 0 {
        assert(!is_quit_line(turns[0].0) && turns[0].1.role == Role::Assistant);
        let st1 = simple_turn(st, turns[0].0, turns[0].1);
        assert(st1.history.len() == st.history.len() + 2);
        assert forall|i: int|
            0 <= i < st1.history.len() implies st1.history[i].role == (if i % 2 == 0 {
            Role::User
        } else {
            Role::Assistant
        }) by {
            if i < st.history.len() {
                assert(st1.history[i] == st.history[i]);
            }
        }
        assert forall|i: int| 0 <= i < turns.skip(1).len() implies !is_quit_line(
            #[trigger] turns.skip(1)[i].0,
        ) && turns.skip(1)[i].1.role == Role::Assistant by {
            assert(turns.skip(1)[i] == turns[i + 1]);
        }
        lemma_simple_session_general(st1, turns.skip(1));
    }
}

/// One tool-use cycle: the turn ends with a `ToolUse` stop reason and the
/// finalized message `m`; the queued tools run; their results `results`
/// come back and the model is invoked again.
pub open spec fn tool_turn(st: DriverView, m: MessageView, results: Seq<MessageView>) -> DriverView {
    tool_results_step(end_stream_step(st, StopReasonView::ToolUse, m).0, results)
}

/// A run of consecutive tool-use cycles with no intervening `EndTurn`.
pub open spec fn run_tool_turns(
    st: DriverView,
    steps: Seq<(MessageView, Seq<MessageView>)>,
) -> DriverView
    decreases steps.len(),
{
    if steps.len() == 0 {
        st
    } else {
        run_tool_turns(tool_turn(st, steps[0].0, steps[0].1), steps.skip(1))
    }
}

/// Induction core for the recursion guard: while the counter stays within
/// the bound, every cycle is admitted and the counter counts the cycles.
proof fn lemma_tool_turns_general(st: DriverView, steps: Seq<(MessageView, Seq<MessageView>)>)
    requires
        st.phase == Phase::AwaitingModelResponse,
        0 <= st.counter,
        st.counter + steps.len() <= MAX_TOOL_USE_RECURSIONS as int,
    ensures
        run_tool_turns(st, steps).phase == Phase::AwaitingModelResponse,
        run_tool_turns(st, steps).counter == st.counter + steps.len(),
        forall|i: int|
            0 <= i < steps.len() ==> end_stream_step(
                run_tool_turns(st, steps.take(i)),
                StopReasonView::ToolUse,
                #[trigger] steps[i].0,
            ).1 is RunTools,
    decreases steps.len(),
{
    if steps.len() > 0 {
        let st1 = tool_turn(st, steps[0].0, steps[0].1);
        assert(st1.counter == st.counter + 1);
        assert(st1.phase == Phase::AwaitingModelResponse);
        lemma_tool_turns_general(st1, steps.skip(1));
        assert forall|i: int|
            0 <= i < steps.len() implies end_stream_step(
            run_tool_turns(st, steps.take(i)),
            StopReasonView::ToolUse,
            #[trigger] steps[i].0,
        ).1 is RunTools by {
            if i == 0 {
                assert(run_tool_turns(st, steps.take(0)) == st);
            } else {
                lemma_run_take_shift(st, steps, i);
                assert(steps.skip(1)[i - 1] == steps[i]);
            }
        }
    }
}

/// Running a prefix of length `i >= 1` equals one cycle and then the
/// shifted prefix.
proof fn lemma_run_take_shift(st: DriverView, steps: Seq<(MessageView, Seq<MessageView>)>, i: int)
    requires
        1 <= i <= steps.len(),
    ensures
        run_tool_turns(st, steps.take(i)) == run_tool_turns(
            tool_turn(st, steps[0].0, steps[0].1),
            steps.skip(1).take(i - 1),
        ),
{
    assert(steps.take(i)[0] == steps[0]);
    assert(steps.take(i).skip(1) =~= steps.skip(1).take(i - 1));
}

/// Law, first half: with the counter fresh, five consecutive tool-use
/// turns are all admitted, but a sixth consecutive `ToolUse` stop reason
/// aborts the session with the recursion-limit error.
pub proof fn lemma_recursion_limit_on_sixth(
    st: DriverView,
    steps: Seq<(MessageView, Seq<MessageView>)>,
    m: MessageView,
)
    requires
        st.phase == Phase::AwaitingModelResponse,
        st.counter == 0,
        steps.len() == MAX_TOOL_USE_RECURSIONS as int,
    ensures
        forall|i: int|
            0 <= i < steps.len() ==> end_stream_step(
                run_tool_turns(st, steps.take(i)),
                StopReasonView::ToolUse,
                #[trigger] steps[i].0,
            ).1 is RunTools,
        end_stream_step(run_tool_turns(st, steps), StopReasonView::ToolUse, m).1
            == TurnOutcomeView::Fatal(FatalErrorView::RecursionLimitExceeded),
        end_stream_step(run_tool_turns(st, steps), StopReasonView::ToolUse, m).0.phase
            == Phase::SessionEnded,
{
    lemma_tool_turns_general(st, steps);
}

/// Law, second half: four consecutive tool-use turns followed by an
/// `EndTurn` do not trigger the limit; the turn completes normally and
/// the counter is reset for the next turn.
pub proof fn lemma_end_turn_resets_counter(
    st: DriverView,
    steps: Seq<(MessageView, Seq<MessageView>)>,
    m: MessageView,
)
    requires
        st.phase == Phase::AwaitingModelResponse,
        st.counter == 0,
        steps.len() == 4,
    ensures
        forall|i: int|
            0 <= i < steps.len() ==> end_stream_step(
                run_tool_turns(st, steps.take(i)),
                StopReasonView::ToolUse,
                #[trigger] steps[i].0,
            ).1 is RunTools,
        end_stream_step(run_tool_turns(st, steps), StopReasonView::EndTurn, m).1
            == TurnOutcomeView::PromptUser,
        end_stream_step(run_tool_turns(st, steps), StopReasonView::EndTurn, m).0.counter == 0,
        end_stream_step(run_tool_turns(st, steps), StopReasonView::EndTurn, m).0.phase
            == Phase::AwaitingUserInput,
{
    lemma_tool_turns_general(st, steps);
}

} // verus!
