//! Response-stream decoder: turns the transport's events, delivered in
//! arrival order, into the normalized response events the driver
//! consumes, and assembles the finalized assistant message of the turn.
//!
//! The transport itself (the remote call and its wire format) is an
//! external collaborator; the loop around the session reads its stream
//! and hands each event in as a plain value. The transport is responsible
//! for delivering tool-use requests as complete units. Once the decoder
//! has produced the end-of-turn event or an error, it yields nothing
//! further for the turn.

use vstd::prelude::*;
use vstd::string::StringExecFns;

use crate::text::str_eq;

use crate::dispatcher::ToolUseRequest;
use crate::dispatcher::ToolUseRequestView;
use crate::message::ContentBlock;
use crate::message::ContentView;
use crate::message::Message;
use crate::message::Role;
use crate::message::StopReason;

verus! {

/// One event as the transport delivers it, already freed of its wire
/// encoding: a fragment of assistant text, one complete tool-use request,
/// or the end of the turn with the raw stop-reason token.
#[derive(Clone, Debug)]
pub enum TransportEvent {
    TextDelta(String),
    ToolUse { id: String, name: String, parameters: String },
    MessageStop { stop_reason: String },
}

/// Mathematical view of a [`TransportEvent`].
pub enum TransportEventView {
    TextDelta(Seq<char>),
    ToolUse { id: Seq<char>, name: Seq<char>, parameters: Seq<char> },
    MessageStop { stop_reason: Seq<char> },
}

impl View for TransportEvent {
    type V = TransportEventView;

    open spec fn view(&self) -> TransportEventView {
        match self {
            TransportEvent::TextDelta(s) => TransportEventView::TextDelta(s@),
            TransportEvent::ToolUse { id, name, parameters } => TransportEventView::ToolUse {
                id: id@,
                name: name@,
                parameters: parameters@,
            },
            TransportEvent::MessageStop { stop_reason } => TransportEventView::MessageStop {
                stop_reason: stop_reason@,
            },
        }
    }
}

/// A normalized event of one model response.
#[derive(Clone, Debug)]
pub enum ResponseEvent {
    /// A fragment of the assistant's text, in arrival order.
    AssistantText(String),
    /// A complete tool-use request to queue for this turn.
    ToolUse(ToolUseRequest),
    /// The turn is over: the stop reason and the finalized assistant
    /// message (all text fragments of the turn, concatenated in order).
    EndStream { stop_reason: StopReason, message: Message },
}

/// The raw token the transport uses for a completed turn.
pub open spec fn end_turn_token() -> Seq<char> {
    "end_turn"@
}

/// The raw token the transport uses for a tool-use stop.
pub open spec fn tool_use_token() -> Seq<char> {
    "tool_use"@
}

/// How a raw stop-reason token is classified. Anything unrecognized is
/// carried verbatim in `Other` and treated as fatal by the driver.
pub open spec fn stop_reason_of(raw: Seq<char>) -> crate::message::StopReasonView {
    if raw == end_turn_token() {
        crate::message::StopReasonView::EndTurn
    } else if raw == tool_use_token() {
        crate::message::StopReasonView::ToolUse
    } else {
        crate::message::StopReasonView::Other(raw)
    }
}

/// The names of the tools whose invocation needs the user's consent.
/// This is the per-session tool configuration handed to each decoder.
#[derive(Clone, Debug)]
pub struct ToolConfig {
    pub consent_required: Vec<String>,
}

impl ToolConfig {
    /// Whether the named tool requires consent under this configuration.
    pub open spec fn spec_requires_consent(&self, name: Seq<char>) -> bool {
        exists|i: int|
            0 <= i < self.consent_required@.len() && self.consent_required@[i]@ == name
    }

    /// Executable lookup of [`ToolConfig::spec_requires_consent`].
    pub fn requires_consent(&self, name: &String) -> (r: bool)
        ensures
            r == self.spec_requires_consent(name@),
    {
        let n = self.consent_required.len();
        let mut i: usize = 0;
        while i < n
            invariant
                n == self.consent_required@.len(),
                i <= n,
                forall|l: int| 0 <= l < i ==> self.consent_required@[l]@ != name@,
            decreases n - i,
        {
            if str_eq(self.consent_required[i].as_str(), name.as_str()) {
                proof {
                    assert(self.consent_required@[i as int]@ == name@);
                }
                return true;
            }
            i = i + 1;
        }
        false
    }
}

/// Decoder state for one model invocation: the text accumulated so far
/// and whether the stream has already terminated.
#[derive(Debug)]
pub struct ResponseStreamDecoder {
    config: ToolConfig,
    text: String,
    done: bool,
}

impl ResponseStreamDecoder {
    /// The assistant text accumulated from the deltas seen so far.
    pub closed spec fn text(&self) -> Seq<char> {
        self.text@
    }

    /// Whether the stream has terminated (end of turn or error).
    pub closed spec fn done(&self) -> bool {
        self.done
    }

    /// The configuration the decoder classifies tool-use requests with.
    pub closed spec fn config(&self) -> ToolConfig {
        self.config
    }

    /// A fresh decoder for one model invocation.
    pub fn new(config: ToolConfig) -> (r: ResponseStreamDecoder)
        ensures
            r.text() == Seq::<char>::empty(),
            !r.done(),
            r.config() == config,
    {
        ResponseStreamDecoder { config, text: String::new(), done: false }
    }

    /// Decodes one delivery from the transport. `Ok(event)` normalizes
    /// the delivery; a transport failure (`Err` input) becomes the single
    /// terminal decode error. After the end-of-turn event or an error,
    /// nothing further is yielded.
    pub fn next_event(&mut self, delivery: Result<TransportEvent, String>) -> (r: Result<
        Option<ResponseEvent>,
        DecodeError,
    >)
        ensures
            old(self).done() ==> {
                &&& r == Result::<Option<ResponseEvent>, DecodeError>::Ok(
                    Option::<ResponseEvent>::None,
                )
                &&& final(self).text() == old(self).text()
                &&& final(self).done()
            },
            !old(self).done() ==> match delivery {
                Result::Err(e) => {
                    &&& r matches Result::Err(d) && d.detail@ == e@
                    &&& final(self).done()
                    &&& final(self).text() == old(self).text()
                },
                Result::Ok(ev) => match ev@ {
                    TransportEventView::TextDelta(t) => {
                        &&& r matches Result::Ok(o) && o matches Option::Some(
                            ResponseEvent::AssistantText(s,
                        )) && s@ == t
                        &&& final(self).text() == old(self).text() + t
                        &&& !final(self).done()
                    },
                    TransportEventView::ToolUse { id, name, parameters } => {
                        &&& r matches Result::Ok(o) && o matches Option::Some(
                            ResponseEvent::ToolUse(q),
                        ) && q@ == (ToolUseRequestView {
                            id,
                            name,
                            parameters,
                            requires_consent: old(self).config().spec_requires_consent(name),
                        })
                        &&& final(self).text() == old(self).text()
                        &&& !final(self).done()
                    },
                    TransportEventView::MessageStop { stop_reason } => {
                        &&& r matches Result::Ok(o) && o matches Option::Some(
                            ResponseEvent::EndStream { stop_reason: sr, message: m },
                        ) && sr@ == stop_reason_of(stop_reason) && m@.role == Role::Assistant
                            && m@.content == ContentView::Text(old(self).text())
                        &&& final(self).done()
                    },
                },
            },
            final(self).config() == old(self).config(),
    {
        if self.done {
            return Ok(None);
        }
        match delivery {
            Result::Err(e) => {
                self.done = true;
                Err(DecodeError { detail: e })
            },
            Result::Ok(ev) => match ev {
                TransportEvent::TextDelta(t) => {
                    self.text.append(t.as_str());
                    Ok(Some(ResponseEvent::AssistantText(t)))
                },
                TransportEvent::ToolUse { id, name, parameters } => {
                    let requires_consent = self.config.requires_consent(&name);
                    Ok(
                        Some(
                            ResponseEvent::ToolUse(
                                ToolUseRequest { id, name, parameters, requires_consent },
                            ),
                        ),
                    )
                },
                TransportEvent::MessageStop { stop_reason } => {
                    self.done = true;
                    let sr = classify_stop_reason(stop_reason);
                    let mut text = String::new();
                    core::mem::swap(&mut text, &mut self.text);
                    let message = Message { role: Role::Assistant, content: ContentBlock::Text(text) };
                    Ok(Some(ResponseEvent::EndStream { stop_reason: sr, message }))
                },
            },
        }
    }
}

/// A transport-level failure, surfaced as the turn's single terminal
/// decode error.
#[derive(Clone, Debug)]
pub struct DecodeError {
    pub detail: String,
}

/// Executable classification of a raw stop-reason token, as
/// [`stop_reason_of`] specifies.
pub fn classify_stop_reason(raw: String) -> (r: StopReason)
    ensures
        r@ == stop_reason_of(raw@),
{
    if str_eq(raw.as_str(), "end_turn") {
        StopReason::EndTurn
    } else if str_eq(raw.as_str(), "tool_use") {
        StopReason::ToolUse
    } else {
        StopReason::Other(raw)
    }
}

} // verus!
