//! The conversation driver: the top-level state machine of a chat session.
//!
//! The driver owns the conversation history, the per-turn tool-use queue
//! and the recursion guard. Each suspension point of the session loop
//! (reading a prompt line, receiving a decoded response event, executing
//! the queued tools) is a step function here; the surrounding program
//! performs the effect and hands its outcome in as a plain value. Every
//! step is specified by a pure transition function on [`DriverView`], so
//! session-level laws can be proved by induction over traces.

use vstd::prelude::*;
use vstd::string::StrSliceExecFns;

use crate::dispatcher::ToolUseRequest;
use crate::dispatcher::ToolUseRequestView;
use crate::message::ContentView;
use crate::message::Message;
use crate::message::MessageView;
use crate::message::Role;
use crate::message::StopReason;
use crate::message::StopReasonView;
use crate::message::msg_views;
use crate::message::user_text_message;
use crate::text::str_eq;

verus! {

/// Most consecutive `ToolUse` stop reasons tolerated without an
/// intervening `EndTurn`; one more aborts the session.
pub const MAX_TOOL_USE_RECURSIONS: u32 = 5;

/// Where in the session loop the driver stands.
#[derive(Clone, Copy, Debug, PartialEq, Eq, Structural)]
pub enum Phase {
    /// Blocked on the next prompt line.
    AwaitingUserInput,
    /// A request is with the model; response events are being delivered.
    AwaitingModelResponse,
    /// The turn ended with pending tool uses that must be executed.
    ExecutingTools,
    /// Terminal: no step function may be applied any more.
    SessionEnded,
}

/// What the caller must do after handing the driver a prompt line.
#[derive(Clone, Copy, Debug, PartialEq, Eq, Structural)]
pub enum PromptOutcome {
    /// End of input or the quit keyword: the session is over, successfully.
    Quit,
    /// Send the updated history to the model.
    Send,
}

/// A condition that aborts the session.
#[derive(Clone, Debug)]
pub enum FatalError {
    /// More consecutive tool-use turns than the recursion guard allows.
    RecursionLimitExceeded,
    /// A stop reason outside the recognized protocol states.
    UnknownStopReason(String),
}

/// Mathematical view of a [`FatalError`].
pub enum FatalErrorView {
    RecursionLimitExceeded,
    UnknownStopReason(Seq<char>),
}

impl View for FatalError {
    type V = FatalErrorView;

    open spec fn view(&self) -> FatalErrorView {
        match self {
            FatalError::RecursionLimitExceeded => FatalErrorView::RecursionLimitExceeded,
            FatalError::UnknownStopReason(s) => FatalErrorView::UnknownStopReason(s@),
        }
    }
}

/// What the caller must do after the end-of-turn event.
#[derive(Clone, Debug)]
pub enum TurnOutcome {
    /// The turn completed; read the next prompt line.
    PromptUser,
    /// The model requested tool use; execute the queued tools.
    RunTools,
    /// The session aborts with the given error.
    Fatal(FatalError),
}

/// Mathematical view of a [`TurnOutcome`].
pub enum TurnOutcomeView {
    PromptUser,
    RunTools,
    Fatal(FatalErrorView),
}

impl View for TurnOutcome {
    type V = TurnOutcomeView;

    open spec fn view(&self) -> TurnOutcomeView {
        match self {
            TurnOutcome::PromptUser => TurnOutcomeView::PromptUser,
            TurnOutcome::RunTools => TurnOutcomeView::RunTools,
            TurnOutcome::Fatal(e) => TurnOutcomeView::Fatal(e@),
        }
    }
}

/// Mathematical view of the driver: phase, history, recursion counter and
/// the tool-use queue of the current turn.
pub struct DriverView {
    pub phase: Phase,
    pub history: Seq<MessageView>,
    pub counter: int,
    pub pending: Seq<ToolUseRequestView>,
}

/// The state a fresh session starts in.
pub open spec fn init_view() -> DriverView {
    DriverView {
        phase: Phase::AwaitingUserInput,
        history: Seq::empty(),
        counter: 0,
        pending: Seq::empty(),
    }
}

/// A whitespace character, as the prompt trimming understands it.
pub open spec fn is_ws(c: char) -> bool {
    c == ' ' || c == '\t' || c == '\n' || c == '\r'
}

/// Number of leading whitespace characters of `s`.
pub open spec fn leading_ws(s: Seq<char>) -> int
    decreases s.len(),
{
    if s.len() == 0 {
        0
    } else if is_ws(s[0]) {
        1 + leading_ws(s.skip(1))
    } else {
        0
    }
}

/// End of the last non-whitespace character of `s` (0 when all blank).
pub open spec fn trimmed_end(s: Seq<char>) -> int
    decreases s.len(),
{
    if s.len() == 0 {
        0
    } else if is_ws(s.last()) {
        trimmed_end(s.drop_last())
    } else {
        s.len() as int
    }
}

/// `s` with leading and trailing whitespace removed.
pub open spec fn trim_view(s: Seq<char>) -> Seq<char> {
    if leading_ws(s) >= trimmed_end(s) {
        Seq::empty()
    } else {
        s.subrange(leading_ws(s), trimmed_end(s))
    }
}

/// A prompt line that ends the session: one of the quit keywords, up to
/// surrounding whitespace.
pub open spec fn is_quit_line(s: Seq<char>) -> bool {
    trim_view(s) == "exit"@ || trim_view(s) == "quit"@
}

/// The transition taken on a prompt read: `None` (end of input) and quit
/// keywords end the session with nothing appended; any other line becomes
/// a user text message and the model is invoked.
pub open spec fn user_step(st: DriverView, line: Option<Seq<char>>) -> (DriverView, PromptOutcome) {
    match line {
        Option::None => (
            DriverView { phase: Phase::SessionEnded, ..st },
            PromptOutcome::Quit,
        ),
        Option::Some(l) => if is_quit_line(l) {
            (DriverView { phase: Phase::SessionEnded, ..st }, PromptOutcome::Quit)
        } else {
            (
                DriverView {
                    phase: Phase::AwaitingModelResponse,
                    history: st.history.push(
                        MessageView { role: Role::User, content: ContentView::Text(l) },
                    ),
                    ..st
                },
                PromptOutcome::Send,
            )
        },
    }
}

/// The transition taken when a tool-use request arrives during a turn.
pub open spec fn tool_use_step(st: DriverView, req: ToolUseRequestView) -> DriverView {
    DriverView { pending: st.pending.push(req), ..st }
}

/// The transition taken at the end-of-turn event: the finalized assistant
/// message joins the history; `EndTurn` resets the recursion counter and
/// returns to the prompt; `ToolUse` increments it and either aborts (past
/// the bound) or proceeds to tool execution; anything else is fatal.
pub open spec fn end_stream_step(st: DriverView, sr: StopReasonView, m: MessageView) -> (
    DriverView,
    TurnOutcomeView,
) {
    let h = st.history.push(m);
    match sr {
        StopReasonView::EndTurn => (
            DriverView { phase: Phase::AwaitingUserInput, history: h, counter: 0, ..st },
            TurnOutcomeView::PromptUser,
        ),
        StopReasonView::ToolUse => if st.counter + 1 > MAX_TOOL_USE_RECURSIONS as int {
            (
                DriverView { phase: Phase::SessionEnded, history: h, ..st },
                TurnOutcomeView::Fatal(FatalErrorView::RecursionLimitExceeded),
            )
        } else {
            (
                DriverView {
                    phase: Phase::ExecutingTools,
                    history: h,
                    counter: st.counter + 1,
                    ..st
                },
                TurnOutcomeView::RunTools,
            )
        },
        StopReasonView::Other(raw) => (
            DriverView { phase: Phase::SessionEnded, history: h, ..st },
            TurnOutcomeView::Fatal(FatalErrorView::UnknownStopReason(raw)),
        ),
    }
}

/// The transition taken when the tool results of a turn come back.
pub open spec fn tool_results_step(st: DriverView, results: Seq<MessageView>) -> DriverView {
    DriverView {
        phase: Phase::AwaitingModelResponse,
        history: st.history + results,
        pending: Seq::empty(),
        ..st
    }
}

/// The session state machine. See the module documentation.
#[derive(Debug)]
pub struct ConversationDriver {
    history: Vec<Message>,
    phase: Phase,
    recursion_counter: u32,
    pending_tools: Vec<ToolUseRequest>,
}

impl View for ConversationDriver {
    type V = DriverView;

    closed spec fn view(&self) -> DriverView {
        DriverView {
            phase: self.phase,
            history: msg_views(self.history@),
            counter: self.recursion_counter as int,
            pending: self.pending_tools@.map_values(|t: ToolUseRequest| t@),
        }
    }
}

impl ConversationDriver {
    /// The recursion counter can never pass the bound.
    pub closed spec fn wf(&self) -> bool {
        self.recursion_counter <= MAX_TOOL_USE_RECURSIONS
    }

    /// Starts a session: empty history, at the prompt.
    pub fn new() -> (r: ConversationDriver)
        ensures
            r@ == init_view(),
            r.wf(),
    {
        let r = ConversationDriver {
            history: Vec::new(),
            phase: Phase::AwaitingUserInput,
            recursion_counter: 0,
            pending_tools: Vec::new(),
        };
        proof {
            assert(r@.history =~= init_view().history);
            assert(r@.pending =~= init_view().pending);
        }
        r
    }

    /// Applies [`user_step`] to one prompt read. End of input (`None`) and
    /// the quit keywords end the session with success and append nothing.
    pub fn on_user_input(&mut self, line: Option<String>) -> (r: PromptOutcome)
        requires
            old(self)@.phase == Phase::AwaitingUserInput,
            old(self).wf(),
        ensures
            final(self).wf(),
            (final(self)@, r) == user_step(old(self)@, line.deep_view()),
    {
        match line {
            Option::None => {
                self.phase = Phase::SessionEnded;
                PromptOutcome::Quit
            },
            Option::Some(l) => {
                if is_quit(l.as_str()) {
                    self.phase = Phase::SessionEnded;
                    PromptOutcome::Quit
                } else {
                    let ghost old_hist = msg_views(self.history@);
                    self.history.push(user_text_message(l));
                    self.phase = Phase::AwaitingModelResponse;
                    proof {
                        assert(msg_views(self.history@) =~= old_hist.push(
                            self.history@.last()@,
                        ));
                    }
                    PromptOutcome::Send
                }
            },
        }
    }

    /// Queues one tool-use request delivered during the current turn.
    pub fn on_tool_use(&mut self, req: ToolUseRequest)
        requires
            old(self)@.phase == Phase::AwaitingModelResponse,
            old(self).wf(),
        ensures
            final(self).wf(),
            final(self)@ == tool_use_step(old(self)@, req@),
    {
        let ghost old_pending = self@.pending;
        let ghost r = req@;
        self.pending_tools.push(req);
        proof {
            assert(self@.pending =~= old_pending.push(r));
        }
    }

    /// Applies [`end_stream_step`] to the end-of-turn event.
    pub fn on_end_stream(&mut self, stop_reason: StopReason, message: Message) -> (r: TurnOutcome)
        requires
            old(self)@.phase == Phase::AwaitingModelResponse,
            old(self).wf(),
        ensures
            final(self).wf(),
            final(self)@ == end_stream_step(old(self)@, stop_reason@, message@).0,
            r@ == end_stream_step(old(self)@, stop_reason@, message@).1,
    {
        let ghost old_hist = msg_views(self.history@);
        self.history.push(message);
        proof {
            assert(msg_views(self.history@) =~= old_hist.push(self.history@.last()@));
        }
        match stop_reason {
            StopReason::EndTurn => {
                self.recursion_counter = 0;
                self.phase = Phase::AwaitingUserInput;
                TurnOutcome::PromptUser
            },
            StopReason::ToolUse => {
                if self.recursion_counter >= MAX_TOOL_USE_RECURSIONS {
                    self.phase = Phase::SessionEnded;
                    TurnOutcome::Fatal(FatalError::RecursionLimitExceeded)
                } else {
                    self.recursion_counter = self.recursion_counter + 1;
                    self.phase = Phase::ExecutingTools;
                    TurnOutcome::RunTools
                }
            },
            StopReason::Other(raw) => {
                self.phase = Phase::SessionEnded;
                TurnOutcome::Fatal(FatalError::UnknownStopReason(raw))
            },
        }
    }

    /// Hands out the queued tool-use requests of this turn, leaving the
    /// queue empty, so they can be dispatched.
    pub fn take_tool_uses(&mut self) -> (r: Vec<ToolUseRequest>)
        requires
            old(self)@.phase == Phase::ExecutingTools,
            old(self).wf(),
        ensures
            final(self).wf(),
            r@.map_values(|t: ToolUseRequest| t@) == old(self)@.pending,
            final(self)@ == (DriverView { pending: Seq::empty(), ..old(self)@ }),
    {
        let mut taken: Vec<ToolUseRequest> = Vec::new();
        core::mem::swap(&mut taken, &mut self.pending_tools);
        proof {
            assert(self@.pending =~= Seq::<ToolUseRequestView>::empty());
        }
        taken
    }

    /// Applies [`tool_results_step`]: the tool-result messages join the
    /// history and the model is invoked again, without reading new input.
    pub fn on_tool_results(&mut self, results: Vec<Message>)
        requires
            old(self)@.phase == Phase::ExecutingTools,
            old(self).wf(),
        ensures
            final(self).wf(),
            final(self)@ == tool_results_step(old(self)@, msg_views(results@)),
    {
        let ghost old_hist = msg_views(self.history@);
        let ghost res_views = msg_views(results@);
        let mut results = results;
        self.history.append(&mut results);
        self.phase = Phase::AwaitingModelResponse;
        self.pending_tools = Vec::new();
        proof {
            assert(msg_views(self.history@) =~= old_hist + res_views);
            assert(self@.pending =~= Seq::<ToolUseRequestView>::empty());
        }
    }

    /// The conversation so far.
    pub fn history(&self) -> (r: &Vec<Message>)
        ensures
            msg_views(r@) == self@.history,
    {
        &self.history
    }

    /// The current phase.
    pub fn phase(&self) -> (r: Phase)
        ensures
            r == self@.phase,
    {
        self.phase
    }

    /// Consecutive tool-use turns seen since the last `EndTurn`.
    pub fn recursion_count(&self) -> (r: u32)
        ensures
            r as int == self@.counter,
    {
        self.recursion_counter
    }
}

/// Whether `s`, trimmed of surrounding whitespace, is a quit keyword.
fn is_quit(s: &str) -> (r: bool)
    ensures
        r == is_quit_line(s@),
{
    let n = s.unicode_len();
    let mut start: usize = 0;
    while start < n && is_ws_char(s.get_char(start))
        invariant
            n == s@.len(),
            start <= n,
            forall|j: int| 0 <= j < start ==> is_ws(s@[j]),
        decreases n - start,
    {
        start = start + 1;
    }
    proof {
        lemma_leading_ws_is(s@, start as int);
    }
    let mut end: usize = n;
    while end > start && is_ws_char(s.get_char(end - 1))
        invariant
            n == s@.len(),
            start <= end <= n,
            forall|j: int| 0 <= j < start ==> is_ws(s@[j]),
            forall|j: int| end <= j < n ==> is_ws(s@[j]),
        decreases end,
    {
        end = end - 1;
    }
    if end == start {
        // all whitespace: the trimmed line is empty, never a keyword
        proof {
            lemma_trimmed_end_bounds(s@);
            if trimmed_end(s@) > 0 {
                // impossible: the character before it would not be
                // whitespace, yet every character of the line is
                lemma_trimmed_end_last(s@);
                assert(is_ws(s@[trimmed_end(s@) - 1]));
            }
            assert(trim_view(s@) =~= Seq::<char>::empty());
            reveal_strlit("exit");
            reveal_strlit("quit");
            assert(trim_view(s@) != "exit"@ && trim_view(s@) != "quit"@);
        }
        return false;
    }
    proof {
        assert(!is_ws(s@[end - 1]));
        lemma_trimmed_end_is(s@, end as int);
        assert(trim_view(s@) == s@.subrange(start as int, end as int));
    }
    let trimmed = s.substring_char(start, end);
    let r = str_eq(trimmed, "exit") || str_eq(trimmed, "quit");
    r
}

/// Executable test for [`is_ws`].
fn is_ws_char(c: char) -> (r: bool)
    ensures
        r == is_ws(c),
{
    c == ' ' || c == '\t' || c == '\n' || c == '\r'
}

/// If the first `i` characters are whitespace and the `i`-th is not (or
/// the string ends there), then `leading_ws` is exactly `i`.
proof fn lemma_leading_ws_is(s: Seq<char>, i: int)
    requires
        0 <= i <= s.len(),
        forall|j: int| 0 <= j < i ==> is_ws(s[j]),
        i < s.len() ==> !is_ws(s[i]),
    ensures
        leading_ws(s) == i,
    decreases i,
{
    if i == 0 {
        if s.len() > 0 {
            assert(!is_ws(s[0]));
        }
    } else {
        assert(is_ws(s[0]));
        assert forall|j: int| 0 <= j < i - 1 implies is_ws(s.skip(1)[j]) by {
            assert(s.skip(1)[j] == s[j + 1]);
        }
        if i - 1 < s.skip(1).len() {
            assert(s.skip(1)[i - 1] == s[i]);
        }
        lemma_leading_ws_is(s.skip(1), i - 1);
    }
}

/// `trimmed_end` lies between 0 and the length.
proof fn lemma_trimmed_end_bounds(s: Seq<char>)
    ensures
        0 <= trimmed_end(s) <= s.len(),
    decreases s.len(),
{
    if s.len() > 0 && is_ws(s.last()) {
        lemma_trimmed_end_bounds(s.drop_last());
    }
}

/// When `trimmed_end` is positive, the character just before it is not
/// whitespace.
proof fn lemma_trimmed_end_last(s: Seq<char>)
    requires
        trimmed_end(s) > 0,
    ensures
        trimmed_end(s) <= s.len(),
        !is_ws(s[trimmed_end(s) - 1]),
    decreases s.len(),
{
    lemma_trimmed_end_bounds(s);
    if is_ws(s.last()) {
        lemma_trimmed_end_last(s.drop_last());
        assert(s.drop_last()[trimmed_end(s.drop_last()) - 1] == s[trimmed_end(s) - 1]);
    }
}

/// If everything from `e` on is whitespace and the character before `e`
/// is not, then `trimmed_end` is exactly `e`.
proof fn lemma_trimmed_end_is(s: Seq<char>, e: int)
    requires
        0 < e <= s.len(),
        forall|j: int| e <= j < s.len() ==> is_ws(s[j]),
        !is_ws(s[e - 1]),
    ensures
        trimmed_end(s) == e,
    decreases s.len(),
{
    if e == s.len() {
    } else {
        assert(is_ws(s.last()));
        assert forall|j: int| e <= j < s.drop_last().len() implies is_ws(s.drop_last()[j]) by {
            assert(s.drop_last()[j] == s[j]);
        }
        assert(s.drop_last()[e - 1] == s[e - 1]);
        lemma_trimmed_end_is(s.drop_last(), e);
    }
}

} // verus!
