use vstd::prelude::*;

verus! {

/// One observable occurrence during an agent turn.
#[derive(Debug, Clone, PartialEq, Eq)]
pub enum AgentEvent {
    /// A chunk of model-generated text.
    Text(String),
    /// A tool invocation requested by the model, before the tool runs.
    ToolCall {
        tool_name: String,
        args: String,
        tool_call_id: Option<String>,
        internal_call_id: String,
    },
    /// The output of a completed tool invocation.
    ToolResult {
        tool_name: String,
        result: String,
        tool_call_id: Option<String>,
    },
    /// The text the caller submitted for a turn.
    UserMessage(String),
    /// A request for a human decision on a tool call.
    ApprovalRequest {
        tool_name: String,
        args: String,
        tool_call_id: String,
    },
    /// A tool call was approved.
    ApprovalApproved {
        tool_call_id: String,
    },
    /// A tool call was denied.
    ApprovalDenied {
        tool_call_id: String,
    },
}

/// The mathematical value of an `AgentEvent`: every string is its sequence of
/// characters.
pub enum EventModel {
    Text(Seq<char>),
    ToolCall {
        tool_name: Seq<char>,
        args: Seq<char>,
        tool_call_id: Option<Seq<char>>,
        internal_call_id: Seq<char>,
    },
    ToolResult {
        tool_name: Seq<char>,
        result: Seq<char>,
        tool_call_id: Option<Seq<char>>,
    },
    UserMessage(Seq<char>),
    ApprovalRequest {
        tool_name: Seq<char>,
        args: Seq<char>,
        tool_call_id: Seq<char>,
    },
    ApprovalApproved {
        tool_call_id: Seq<char>,
    },
    ApprovalDenied {
        tool_call_id: Seq<char>,
    },
}

/// The characters of an optional string.
pub open spec fn opt_view(o: Option<String>) -> Option<Seq<char>> {
    match o {
        Some(s) => Some(s@),
        None => None,
    }
}

impl View for AgentEvent {
    type V = EventModel;

    open spec fn view(&self) -> EventModel {
        match self {
            AgentEvent::Text(t) => EventModel::Text(t@),
            AgentEvent::ToolCall { tool_name, args, tool_call_id, internal_call_id } =>
                EventModel::ToolCall {
                    tool_name: tool_name@,
                    args: args@,
                    tool_call_id: opt_view(*tool_call_id),
                    internal_call_id: internal_call_id@,
                },
            AgentEvent::ToolResult { tool_name, result, tool_call_id } => EventModel::ToolResult {
                tool_name: tool_name@,
                result: result@,
                tool_call_id: opt_view(*tool_call_id),
            },
            AgentEvent::UserMessage(t) => EventModel::UserMessage(t@),
            AgentEvent::ApprovalRequest { tool_name, args, tool_call_id } =>
                EventModel::ApprovalRequest {
                    tool_name: tool_name@,
                    args: args@,
                    tool_call_id: tool_call_id@,
                },
            AgentEvent::ApprovalApproved { tool_call_id } => EventModel::ApprovalApproved {
                tool_call_id: tool_call_id@,
            },
            AgentEvent::ApprovalDenied { tool_call_id } => EventModel::ApprovalDenied {
                tool_call_id: tool_call_id@,
            },
        }
    }
}

/// The text that a sequence of events carries: the payloads of its `Text`
/// events, concatenated in order.
pub open spec fn texts(s: Seq<EventModel>) -> Seq<char>
    decreases s.len(),
{
    if s.len() == 0 {
        Seq::empty()
    } else {
        texts(s.drop_last()) + match s.last() {
            EventModel::Text(t) => t,
            _ => Seq::empty(),
        }
    }
}

} // verus!
