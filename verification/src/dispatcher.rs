//! Tool dispatch: turns one turn's queue of tool-use requests into the
//! ordered tool-result messages that are reported back to the model.
//!
//! Consent decisions and invocation outcomes are effects of external
//! collaborators; the loop that produces them hands them in as plain
//! values, one per request, and this module decides what the resulting
//! message sequence is.

use vstd::prelude::*;
use vstd::string::StringExecFns;

use crate::message::ContentView;
use crate::message::Message;
use crate::message::MessageView;
use crate::message::Role;
use crate::message::ToolResultStatus;
use crate::message::msg_views;
use crate::message::tool_result_message;

verus! {

/// A model-issued request to run one local tool, as queued during a turn.
#[derive(Clone, Debug)]
pub struct ToolUseRequest {
    /// Opaque correlation token; echoed in the matching tool result.
    pub id: String,
    /// Name of the requested capability.
    pub name: String,
    /// The request's parameter payload, carried verbatim.
    pub parameters: String,
    /// Whether the user must consent before this tool may run.
    pub requires_consent: bool,
}

/// Mathematical view of a [`ToolUseRequest`].
pub struct ToolUseRequestView {
    pub id: Seq<char>,
    pub name: Seq<char>,
    pub parameters: Seq<char>,
    pub requires_consent: bool,
}

impl View for ToolUseRequest {
    type V = ToolUseRequestView;

    open spec fn view(&self) -> ToolUseRequestView {
        ToolUseRequestView {
            id: self.id@,
            name: self.name@,
            parameters: self.parameters@,
            requires_consent: self.requires_consent,
        }
    }
}

/// The user's answer to a consent prompt.
#[derive(Clone, Debug)]
pub enum ConsentDecision {
    Granted,
    Denied(String),
}

/// What happened when a tool was actually invoked.
#[derive(Clone, Debug)]
pub enum InvocationOutcome {
    Success(String),
    Failure(String),
}

/// Phrase prefixed to the reason when consent is denied.
pub open spec fn denial_prefix() -> Seq<char> {
    "The user denied permission to execute this tool. Reason: "@
}

/// Phrase prefixed to the error when a tool invocation fails.
pub open spec fn failure_prefix() -> Seq<char> {
    "An error occurred processing the tool: "@
}

/// The tool-result message recording a consent denial.
pub open spec fn denial_result(id: Seq<char>, reason: Seq<char>) -> MessageView {
    MessageView {
        role: Role::User,
        content: ContentView::ToolResult {
            tool_use_id: id,
            status: ToolResultStatus::Error,
            content: denial_prefix() + reason,
        },
    }
}

/// The tool-result message recording a successful invocation.
pub open spec fn success_result(id: Seq<char>, output: Seq<char>) -> MessageView {
    MessageView {
        role: Role::User,
        content: ContentView::ToolResult {
            tool_use_id: id,
            status: ToolResultStatus::Success,
            content: output,
        },
    }
}

/// The tool-result message recording a failed invocation.
pub open spec fn failure_result(id: Seq<char>, error: Seq<char>) -> MessageView {
    MessageView {
        role: Role::User,
        content: ContentView::ToolResult {
            tool_use_id: id,
            status: ToolResultStatus::Error,
            content: failure_prefix() + error,
        },
    }
}

/// The whole dispatch policy, as a function of the queue and of the
/// external decisions: requests are processed strictly in order; a consent
/// denial records one error result and drops the remainder of the queue;
/// an invocation failure records an error result and processing continues.
///
/// Note the debatable part of this policy, kept deliberately: after a
/// denial the remaining requests are dropped outright, with no result at
/// all, rather than each being recorded as skipped.
pub open spec fn dispatch_results(
    uses: Seq<ToolUseRequestView>,
    consents: Seq<ConsentDecision>,
    outcomes: Seq<InvocationOutcome>,
) -> Seq<MessageView>
    decreases uses.len(),
{
    if uses.len() == 0 {
        Seq::empty()
    } else {
        let rest = dispatch_results(uses.skip(1), consents.skip(1), outcomes.skip(1));
        if uses[0].requires_consent && consents[0] is Denied {
            seq![denial_result(uses[0].id, consents[0]->Denied_0@)]
        } else {
            match outcomes[0] {
                InvocationOutcome::Success(out) => seq![success_result(uses[0].id, out@)] + rest,
                InvocationOutcome::Failure(err) => seq![failure_result(uses[0].id, err@)] + rest,
            }
        }
    }
}

/// Always grants. The observed consent policy asks no question; the
/// dispatcher nevertheless honours whatever decisions it is handed.
pub fn ask_for_consent() -> (r: Result<(), String>)
    ensures
        r is Ok,
{
    Ok(())
}

/// Executes one turn's tool queue against the externally decided consent
/// answers and invocation outcomes, and returns the tool-result messages
/// in request order.
pub fn handle_tool_use(
    tool_uses: Vec<ToolUseRequest>,
    consents: Vec<ConsentDecision>,
    outcomes: Vec<InvocationOutcome>,
) -> (r: Vec<Message>)
    requires
        consents@.len() == tool_uses@.len(),
        outcomes@.len() == tool_uses@.len(),
    ensures
        msg_views(r@) == dispatch_results(msg_requests(tool_uses@), consents@, outcomes@),
{
    let mut messages: Vec<Message> = Vec::new();
    let n = tool_uses.len();
    let mut i: usize = 0;
    proof {
        assert(msg_requests(tool_uses@).skip(0) =~= msg_requests(tool_uses@));
        assert(consents@.skip(0) =~= consents@);
        assert(outcomes@.skip(0) =~= outcomes@);
        assert(msg_views(messages@) + dispatch_results(
            msg_requests(tool_uses@),
            consents@,
            outcomes@,
        ) =~= dispatch_results(msg_requests(tool_uses@), consents@, outcomes@));
    }
    while i < n
        invariant
            n == tool_uses@.len(),
            consents@.len() == n,
            outcomes@.len() == n,
            i <= n,
            dispatch_results(msg_requests(tool_uses@), consents@, outcomes@) == msg_views(
                messages@,
            ) + dispatch_results(
                msg_requests(tool_uses@).skip(i as int),
                consents@.skip(i as int),
                outcomes@.skip(i as int),
            ),
        decreases n - i,
    {
        proof {
            lemma_dispatch_unfold(
                msg_requests(tool_uses@),
                consents@,
                outcomes@,
                i as int,
            );
        }
        let tool_use = &tool_uses[i];
        if tool_use.requires_consent {
            if let ConsentDecision::Denied(reason) = &consents[i] {
                let mut content = String::from_str(
                    "The user denied permission to execute this tool. Reason: ",
                );
                content.append(reason.as_str());
                messages.push(
                    tool_result_message(tool_use.id.clone(), ToolResultStatus::Error, content),
                );
                proof {
                    assert(msg_views(messages@) =~= msg_views(messages@.drop_last()) + seq![
                        messages@.last()@,
                    ]);
                }
                return messages;
            }
        }
        match &outcomes[i] {
            InvocationOutcome::Success(output) => {
                let content = String::from_str(output.as_str());
                messages.push(
                    tool_result_message(tool_use.id.clone(), ToolResultStatus::Success, content),
                );
            },
            InvocationOutcome::Failure(error) => {
                let mut content = String::from_str("An error occurred processing the tool: ");
                content.append(error.as_str());
                messages.push(
                    tool_result_message(tool_use.id.clone(), ToolResultStatus::Error, content),
                );
            },
        }
        proof {
            assert(msg_views(messages@) =~= msg_views(messages@.drop_last()) + seq![
                messages@.last()@,
            ]);
        }
        i = i + 1;
    }
    messages
}

/// Views of a whole request queue.
pub open spec fn msg_requests(s: Seq<ToolUseRequest>) -> Seq<ToolUseRequestView> {
    s.map_values(|t: ToolUseRequest| t@)
}

/// True when position `i` of the queue would be stopped by a consent denial.
pub open spec fn denied_at(
    uses: Seq<ToolUseRequestView>,
    consents: Seq<ConsentDecision>,
    i: int,
) -> bool {
    uses[i].requires_consent && consents[i] is Denied
}

/// The result owed for position `i` when dispatch reaches it and consent
/// does not stop it there.
pub open spec fn outcome_result(
    uses: Seq<ToolUseRequestView>,
    outcomes: Seq<InvocationOutcome>,
    i: int,
) -> MessageView {
    match outcomes[i] {
        InvocationOutcome::Success(out) => success_result(uses[i].id, out@),
        InvocationOutcome::Failure(err) => failure_result(uses[i].id, err@),
    }
}

/// Law: when no request in the queue is stopped by a consent denial, every
/// request is represented in the output, in request order, each by the
/// result of its own outcome. In particular an invocation failure at one
/// position never suppresses the results of the positions after it.
pub proof fn lemma_dispatch_no_denial(
    uses: Seq<ToolUseRequestView>,
    consents: Seq<ConsentDecision>,
    outcomes: Seq<InvocationOutcome>,
)
    requires
        consents.len() == uses.len(),
        outcomes.len() == uses.len(),
        forall|i: int| 0 <= i < uses.len() ==> !denied_at(uses, consents, i),
    ensures
        dispatch_results(uses, consents, outcomes).len() == uses.len(),
        forall|i: int|
            0 <= i < uses.len() ==> dispatch_results(uses, consents, outcomes)[i]
                == outcome_result(uses, outcomes, i),
    decreases uses.len(),
{
    if uses.len() > 0 {
        assert(!denied_at(uses, consents, 0));
        assert forall|i: int| 0 <= i < uses.skip(1).len() implies !denied_at(
            uses.skip(1),
            consents.skip(1),
            i,
        ) by {
            assert(uses.skip(1)[i] == uses[i + 1]);
            assert(consents.skip(1)[i] == consents[i + 1]);
            assert(!denied_at(uses, consents, i + 1));
        }
        lemma_dispatch_no_denial(uses.skip(1), consents.skip(1), outcomes.skip(1));
        let rest = dispatch_results(uses.skip(1), consents.skip(1), outcomes.skip(1));
        assert(dispatch_results(uses, consents, outcomes) == seq![
            outcome_result(uses, outcomes, 0),
        ] + rest) by {
            match outcomes[0] {
                InvocationOutcome::Success(out) => {
                    assert(outcome_result(uses, outcomes, 0) == success_result(uses[0].id, out@));
                },
                InvocationOutcome::Failure(err) => {
                    assert(outcome_result(uses, outcomes, 0) == failure_result(uses[0].id, err@));
                },
            }
        }
        assert forall|i: int| 0 <= i < uses.len() implies dispatch_results(
            uses,
            consents,
            outcomes,
        )[i] == outcome_result(uses, outcomes, i) by {
            if i > 0 {
                assert(dispatch_results(uses, consents, outcomes)[i] == rest[i - 1]);
                assert(rest[i - 1] == outcome_result(uses.skip(1), outcomes.skip(1), i - 1));
                assert(uses.skip(1)[i - 1] == uses[i]);
                assert(outcomes.skip(1)[i - 1] == outcomes[i]);
            }
        }
    }
}

/// Law: a consent denial at position `k` (the first one) cuts the batch:
/// the output is the results of the positions before `k`, then the denial
/// record for `k`, and nothing for any later position.
pub proof fn lemma_dispatch_denial_stops(
    uses: Seq<ToolUseRequestView>,
    consents: Seq<ConsentDecision>,
    outcomes: Seq<InvocationOutcome>,
    k: int,
)
    requires
        consents.len() == uses.len(),
        outcomes.len() == uses.len(),
        0 <= k < uses.len(),
        denied_at(uses, consents, k),
        forall|i: int| 0 <= i < k ==> !denied_at(uses, consents, i),
    ensures
        dispatch_results(uses, consents, outcomes) == dispatch_results(
            uses.take(k),
            consents.take(k),
            outcomes.take(k),
        ) + seq![denial_result(uses[k].id, consents[k]->Denied_0@)],
    decreases k,
{
    if k == 0 {
        assert(dispatch_results(uses, consents, outcomes) =~= dispatch_results(
            uses.take(0),
            consents.take(0),
            outcomes.take(0),
        ) + seq![denial_result(uses[0].id, consents[0]->Denied_0@)]);
    } else {
        assert(!denied_at(uses, consents, 0));
        assert forall|i: int| 0 <= i < k - 1 implies !denied_at(
            uses.skip(1),
            consents.skip(1),
            i,
        ) by {
            assert(uses.skip(1)[i] == uses[i + 1]);
            assert(consents.skip(1)[i] == consents[i + 1]);
            assert(!denied_at(uses, consents, i + 1));
        }
        assert(uses.skip(1)[k - 1] == uses[k]);
        assert(consents.skip(1)[k - 1] == consents[k]);
        lemma_dispatch_denial_stops(uses.skip(1), consents.skip(1), outcomes.skip(1), k - 1);
        assert(uses.skip(1).take(k - 1) =~= uses.take(k).skip(1));
        assert(consents.skip(1).take(k - 1) =~= consents.take(k).skip(1));
        assert(outcomes.skip(1).take(k - 1) =~= outcomes.take(k).skip(1));
        assert(uses.take(k)[0] == uses[0]);
        assert(consents.take(k)[0] == consents[0]);
        assert(outcomes.take(k)[0] == outcomes[0]);
        assert(dispatch_results(uses, consents, outcomes) =~= dispatch_results(
            uses.take(k),
            consents.take(k),
            outcomes.take(k),
        ) + seq![denial_result(uses[k].id, consents[k]->Denied_0@)]);
    }
}

/// Unfolds one step of [`dispatch_results`] at position `i` of the queue.
proof fn lemma_dispatch_unfold(
    uses: Seq<ToolUseRequestView>,
    consents: Seq<ConsentDecision>,
    outcomes: Seq<InvocationOutcome>,
    i: int,
)
    requires
        0 <= i < uses.len(),
        consents.len() == uses.len(),
        outcomes.len() == uses.len(),
    ensures
        dispatch_results(uses.skip(i), consents.skip(i), outcomes.skip(i)) == (
        if uses[i].requires_consent && consents[i] is Denied {
            seq![denial_result(uses[i].id, consents[i]->Denied_0@)]
        } else {
            match outcomes[i] {
                InvocationOutcome::Success(out) => seq![success_result(uses[i].id, out@)]
                    + dispatch_results(
                    uses.skip(i + 1),
                    consents.skip(i + 1),
                    outcomes.skip(i + 1),
                ),
                InvocationOutcome::Failure(err) => seq![failure_result(uses[i].id, err@)]
                    + dispatch_results(
                    uses.skip(i + 1),
                    consents.skip(i + 1),
                    outcomes.skip(i + 1),
                ),
            }
        }),
{
    assert(uses.skip(i)[0] == uses[i]);
    assert(consents.skip(i)[0] == consents[i]);
    assert(outcomes.skip(i)[0] == outcomes[i]);
    assert(uses.skip(i).skip(1) =~= uses.skip(i + 1));
    assert(consents.skip(i).skip(1) =~= consents.skip(i + 1));
    assert(outcomes.skip(i).skip(1) =~= outcomes.skip(i + 1));
}

} // verus!
