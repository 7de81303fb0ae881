use vstd::prelude::*;
use crate::event::{AgentEvent, EventModel, opt_view};
use crate::text::{trim_of, trimmed};

verus! {

/// The text of an event that rendering trims: the payload of `Text`, the
/// arguments of `ToolCall` and `ApprovalRequest`, nothing for the others.
pub open spec fn trim_subject(e: EventModel) -> Seq<char> {
    match e {
        EventModel::Text(t) => t,
        EventModel::ToolCall { args, .. } => args,
        EventModel::ApprovalRequest { args, .. } => args,
        _ => Seq::empty(),
    }
}

/// What the console prints for `e`, given the trimmed form of its
/// `trim_subject`: text as it came, unless it is blank; a one-line summary of
/// tool and approval events; nothing for the user's own message.
pub open spec fn rendered(e: EventModel, trim: Seq<char>) -> Option<Seq<char>> {
    match e {
        EventModel::Text(t) => if trim.len() == 0 {
            None
        } else {
            Some(t)
        },
        EventModel::ToolCall { tool_name, .. } => Some(
            "[Tool] "@ + tool_name + ": "@ + trim + "\n"@,
        ),
        EventModel::ToolResult { tool_name, .. } => Some("[Result] "@ + tool_name + "\n"@),
        EventModel::UserMessage(_) => None,
        EventModel::ApprovalRequest { tool_name, tool_call_id, .. } => Some(
            "[Approval needed] "@ + tool_name + ": "@ + trim + " (id: "@ + tool_call_id + ")\n"@,
        ),
        EventModel::ApprovalApproved { tool_call_id } => Some(
            "[Approved] "@ + tool_call_id + "\n"@,
        ),
        EventModel::ApprovalDenied { tool_call_id } => Some("[Denied] "@ + tool_call_id + "\n"@),
    }
}

/// Renders `e` for the console, where `trim` is the trimmed form of its
/// `trim_subject`.
pub fn render_trimmed(e: &AgentEvent, trim: &str) -> (r: Option<String>)
    ensures
        opt_view(r) == rendered(e@, trim@),
{
    match e {
        AgentEvent::Text(t) => {
            if trim.is_empty() {
                None
            } else {
                Some(t.clone())
            }
        },
        AgentEvent::ToolCall { tool_name, .. } => {
            let mut s = String::from_str("[Tool] ");
            s.append(tool_name.as_str());
            s.append(": ");
            s.append(trim);
            s.append("\n");
            Some(s)
        },
        AgentEvent::ToolResult { tool_name, .. } => {
            let mut s = String::from_str("[Result] ");
            s.append(tool_name.as_str());
            s.append("\n");
            Some(s)
        },
        AgentEvent::UserMessage(_) => None,
        AgentEvent::ApprovalRequest { tool_name, tool_call_id, .. } => {
            let mut s = String::from_str("[Approval needed] ");
            s.append(tool_name.as_str());
            s.append(": ");
            s.append(trim);
            s.append(" (id: ");
            s.append(tool_call_id.as_str());
            s.append(")\n");
            Some(s)
        },
        AgentEvent::ApprovalApproved { tool_call_id } => {
            let mut s = String::from_str("[Approved] ");
            s.append(tool_call_id.as_str());
            s.append("\n");
            Some(s)
        },
        AgentEvent::ApprovalDenied { tool_call_id } => {
            let mut s = String::from_str("[Denied] ");
            s.append(tool_call_id.as_str());
            s.append("\n");
            Some(s)
        },
    }
}

/// What the console prints for `e`, if anything.
pub fn render_event(e: &AgentEvent) -> (r: Option<String>)
    ensures
        opt_view(r) == rendered(e@, trim_of(trim_subject(e@))),
{
    let subject = match e {
        AgentEvent::Text(t) => trimmed(t.as_str()),
        AgentEvent::ToolCall { args, .. } => trimmed(args.as_str()),
        AgentEvent::ApprovalRequest { args, .. } => trimmed(args.as_str()),
        _ => trimmed(""),
    };
    render_trimmed(e, subject.as_str())
}

} // verus!
