//! The session gateway: one persistent bidirectional connection, its
//! chat history, and the dispatch of each incoming message to a named
//! responder.
//!
//! Within one connection, messages are handled strictly in receipt order:
//! each message is appended to the history and answered before the next
//! one is touched. The runtime parses and transports the messages; the
//! decisions and the history live here.

use vstd::prelude::*;
use vstd::string::StringExecFns;
use crate::state::str_eq;

verus! {

/// One structured message received from the client.
pub struct AgentMessage {
    /// The responder category: "design", "analysis" or "synthesis";
    /// anything else falls to the generic responder.
    pub agent_type: String,
    pub content: String,
    pub timestamp: u64,
}

/// One tool invocation carried between client and backend, unmodified.
pub struct ToolCall {
    pub tool_name: String,
    /// The invocation's arguments, an opaque JSON text.
    pub args: String,
    /// The invocation's result, an opaque JSON text, once present.
    pub result: Option<String>,
}

/// One reply sent back over the connection.
pub struct AgentResponse {
    pub agent_name: String,
    pub response: String,
    pub tool_calls: Vec<ToolCall>,
    /// "thinking", "using_tool" or "complete"; the minimal responder
    /// only ever ends a turn with "complete".
    pub status: String,
}

/// The workspace a connection works in: its files, its latest metrics
/// (an opaque JSON text) and the ordered chat history of (role, content).
pub struct AgentWorkspaceState {
    pub scaffolds: Vec<String>,
    pub metrics: String,
    pub chat_history: Vec<(String, String)>,
}

impl AgentWorkspaceState {
    pub fn new() -> (ws: AgentWorkspaceState)
        ensures
            ws.scaffolds@.len() == 0,
            ws.metrics@ == "{}"@,
            ws.chat_history@.len() == 0,
    {
        AgentWorkspaceState {
            scaffolds: Vec::new(),
            metrics: String::from_str("{}"),
            chat_history: Vec::new(),
        }
    }
}

/// The system-ready notice sent once when a connection opens, before any
/// message is handled.
pub fn welcome_message() -> (s: String)
    ensures
        s@ == "{\"type\":\"system\",\"content\":\"Darwin Research Hub initialized. Agents ready.\"}"@,
{
    String::from_str(
        "{\"type\":\"system\",\"content\":\"Darwin Research Hub initialized. Agents ready.\"}",
    )
}

/// The responder name a category is dispatched to. The three known
/// categories each have their agent; every other category falls to the
/// generic one, so new categories need no protocol change.
pub open spec fn agent_name_for(category: Seq<char>) -> Seq<char> {
    if category == "design"@ {
        "Design Agent"@
    } else if category == "analysis"@ {
        "Analysis Agent"@
    } else if category == "synthesis"@ {
        "Synthesis Agent"@
    } else {
        "Unknown Agent"@
    }
}

/// The reply the minimal responder owes for `m`: the dispatched agent's
/// name, an acknowledgement quoting the content, no tool calls, and a
/// turn that ends complete.
pub open spec fn is_response_for(r: AgentResponse, m: AgentMessage) -> bool {
    &&& r.agent_name@ == agent_name_for(m.agent_type@)
    &&& r.response@ == "Processing your request: "@ + m.content@
    &&& r.tool_calls@.len() == 0
    &&& r.status@ == "complete"@
}

/// Dispatches one message to its responder and synthesizes the completed
/// reply.
pub fn route_to_agent(msg: &AgentMessage) -> (r: AgentResponse)
    ensures
        is_response_for(r, *msg),
{
    let agent_name = if str_eq(msg.agent_type.as_str(), "design") {
        String::from_str("Design Agent")
    } else if str_eq(msg.agent_type.as_str(), "analysis") {
        String::from_str("Analysis Agent")
    } else if str_eq(msg.agent_type.as_str(), "synthesis") {
        String::from_str("Synthesis Agent")
    } else {
        String::from_str("Unknown Agent")
    };
    let mut response = String::from_str("Processing your request: ");
    response.append(msg.content.as_str());
    AgentResponse { agent_name, response, tool_calls: Vec::new(), status: String::from_str(
        "complete",
    ) }
}

/// Handles one message: appends the user's content to the history, then
/// produces the reply for exactly this message.
pub fn handle_agent_message(ws: &mut AgentWorkspaceState, msg: &AgentMessage) -> (r:
    AgentResponse)
    ensures
        is_response_for(r, *msg),
        final(ws).chat_history@.len() == old(ws).chat_history@.len() + 1,
        forall|i: int|
            0 <= i < old(ws).chat_history@.len() ==> final(ws).chat_history@[i] == old(
                ws,
            ).chat_history@[i],
        final(ws).chat_history@.last().0@ == "user"@,
        final(ws).chat_history@.last().1 == msg.content,
        final(ws).scaffolds == old(ws).scaffolds,
        final(ws).metrics == old(ws).metrics,
{
    ws.chat_history.push((String::from_str("user"), msg.content.clone()));
    route_to_agent(msg)
}

/// The history `h` holds, from position `base` on, the user contents of
/// the first `k` messages, in receipt order.
pub open spec fn user_entries_from(
    h: Seq<(String, String)>,
    base: int,
    msgs: Seq<AgentMessage>,
    k: int,
) -> bool {
    forall|i: int|
        0 <= i < k ==> (#[trigger] h[base + i]).0@ == "user"@ && h[base + i].1 == msgs[i].content
}

/// Handles a batch of messages in receipt order: the `i`-th reply answers
/// the `i`-th message, and the history grows by the user contents in that
/// same order — each appended before any later message is answered.
pub fn handle_messages(ws: &mut AgentWorkspaceState, msgs: &Vec<AgentMessage>) -> (rs: Vec<
    AgentResponse,
>)
    ensures
        rs@.len() == msgs@.len(),
        forall|i: int| 0 <= i < msgs@.len() ==> is_response_for(rs@[i], msgs@[i]),
        final(ws).chat_history@.len() == old(ws).chat_history@.len() + msgs@.len(),
        forall|i: int|
            0 <= i < old(ws).chat_history@.len() ==> final(ws).chat_history@[i] == old(
                ws,
            ).chat_history@[i],
        user_entries_from(
            final(ws).chat_history@,
            old(ws).chat_history@.len() as int,
            msgs@,
            msgs@.len() as int,
        ),
        final(ws).scaffolds == old(ws).scaffolds,
        final(ws).metrics == old(ws).metrics,
{
    let ghost base: int = old(ws).chat_history@.len() as int;
    let mut rs: Vec<AgentResponse> = Vec::new();
    let n: usize = msgs.len();
    let mut k: usize = 0;
    while k < n
        invariant
            n == msgs@.len(),
            k <= n,
            base == old(ws).chat_history@.len(),
            rs@.len() == k,
            forall|i: int| 0 <= i < k ==> is_response_for(rs@[i], msgs@[i]),
            ws.chat_history@.len() == base + k,
            forall|i: int|
                0 <= i < base ==> ws.chat_history@[i] == old(ws).chat_history@[i],
            user_entries_from(ws.chat_history@, base, msgs@, k as int),
            ws.scaffolds == old(ws).scaffolds,
            ws.metrics == old(ws).metrics,
        decreases n - k,
    {
        let ghost prev = ws.chat_history@;
        let r = handle_agent_message(ws, &msgs[k]);
        rs.push(r);
        proof {
            assert(ws.chat_history@.len() == base + k + 1);
            assert forall|i: int| 0 <= i < k + 1 implies ((#[trigger] ws.chat_history@[base
                + i]).0@ == "user"@ && ws.chat_history@[base + i].1 == msgs@[i].content) by {
                if i < k {
                    assert(ws.chat_history@[base + i] == prev[base + i]);
                    assert((prev[base + i]).0@ == "user"@ && prev[base + i].1
                        == msgs@[i].content);
                } else {
                    assert(ws.chat_history@[base + i] == ws.chat_history@.last());
                }
            };
            assert(user_entries_from(ws.chat_history@, base, msgs@, k + 1));
        }
        k = k + 1;
    }
    rs
}

} // verus!
