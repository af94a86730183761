//! Conversation data model: roles, content blocks, messages and stop
//! reasons, with mathematical views for use in contracts.

use vstd::prelude::*;

verus! {

/// Who produced a message. Tool results are carried in `User`-role messages.
#[derive(Clone, Copy, Debug, PartialEq, Eq, Structural)]
pub enum Role {
    User,
    Assistant,
}

/// Whether a tool invocation succeeded or failed.
#[derive(Clone, Copy, Debug, PartialEq, Eq, Structural)]
pub enum ToolResultStatus {
    Success,
    Error,
}

/// The payload of a message: plain text, a model-issued tool-use request,
/// or the result of executing such a request.
#[derive(Clone, Debug)]
pub enum ContentBlock {
    Text(String),
    ToolUse { id: String, name: String, parameters: String },
    ToolResult { tool_use_id: String, status: ToolResultStatus, content: String },
}

/// Mathematical view of a [`ContentBlock`], with strings as `Seq<char>`.
pub enum ContentView {
    Text(Seq<char>),
    ToolUse { id: Seq<char>, name: Seq<char>, parameters: Seq<char> },
    ToolResult { tool_use_id: Seq<char>, status: ToolResultStatus, content: Seq<char> },
}

impl View for ContentBlock {
    type V = ContentView;

    open spec fn view(&self) -> ContentView {
        match self {
            ContentBlock::Text(s) => ContentView::Text(s@),
            ContentBlock::ToolUse { id, name, parameters } => ContentView::ToolUse {
                id: id@,
                name: name@,
                parameters: parameters@,
            },
            ContentBlock::ToolResult { tool_use_id, status, content } => ContentView::ToolResult {
                tool_use_id: tool_use_id@,
                status: *status,
                content: content@,
            },
        }
    }
}

/// One entry of the conversation history.
#[derive(Clone, Debug)]
pub struct Message {
    pub role: Role,
    pub content: ContentBlock,
}

/// Mathematical view of a [`Message`].
pub struct MessageView {
    pub role: Role,
    pub content: ContentView,
}

impl View for Message {
    type V = MessageView;

    open spec fn view(&self) -> MessageView {
        MessageView { role: self.role, content: self.content@ }
    }
}

/// The model's signal for why it stopped producing output for a turn.
/// Anything besides `EndTurn` and `ToolUse` is an unrecognized protocol
/// state, carried verbatim in `Other`.
#[derive(Clone, Debug)]
pub enum StopReason {
    EndTurn,
    ToolUse,
    Other(String),
}

/// Mathematical view of a [`StopReason`].
pub enum StopReasonView {
    EndTurn,
    ToolUse,
    Other(Seq<char>),
}

impl View for StopReason {
    type V = StopReasonView;

    open spec fn view(&self) -> StopReasonView {
        match self {
            StopReason::EndTurn => StopReasonView::EndTurn,
            StopReason::ToolUse => StopReasonView::ToolUse,
            StopReason::Other(s) => StopReasonView::Other(s@),
        }
    }
}

/// Views of a whole history, for contracts over `Vec<Message>`.
pub open spec fn msg_views(s: Seq<Message>) -> Seq<MessageView> {
    s.map_values(|m: Message| m@)
}

/// Builds the user-role text message appended when a prompt line is read.
pub fn user_text_message(text: String) -> (r: Message)
    ensures
        r@.role == Role::User,
        r@.content == ContentView::Text(text@),
{
    Message { role: Role::User, content: ContentBlock::Text(text) }
}

/// Builds a user-role tool-result message, the form in which tool output
/// is reported back to the model.
pub fn tool_result_message(tool_use_id: String, status: ToolResultStatus, content: String) -> (r:
    Message)
    ensures
        r@.role == Role::User,
        r@.content == (ContentView::ToolResult {
            tool_use_id: tool_use_id@,
            status: status,
            content: content@,
        }),
{
    Message {
        role: Role::User,
        content: ContentBlock::ToolResult { tool_use_id, status, content },
    }
}

} // verus!
