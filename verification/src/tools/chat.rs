//! Chat completions with the Agnes chat model: the request of a chat call
//! and the text it returns.

use vstd::prelude::*;

use crate::error::Error;
use crate::json::{Json, JsonValue};
use crate::text::{concat, owned, push_str, str_eq, trim};
use crate::tools::agnes_client::{chat_text_of, extract_chat_text, ChatMessage, ChatRequest};
use crate::tools::ToolError;

verus! {

/// Name of the chat tool.
pub const TOOL_CHAT: &'static str = "agnes_chat";

/// A single message in optional conversation history.
#[derive(Debug, Clone)]
pub struct HistoryMessage {
    /// Message role: `system`, `user`, or `assistant`.
    pub role: String,
    /// Message content.
    pub content: String,
}

/// Parameters of a chat call.
///
/// `temperature` and `top_p` hold the text of their JSON number literals.
#[derive(Debug, Clone)]
pub struct ChatToolParams {
    /// The user message / prompt to send.
    pub prompt: String,
    /// Optional system prompt to guide model behavior.
    pub system: Option<String>,
    /// Optional prior conversation turns; the prompt follows them.
    pub history: Option<Vec<HistoryMessage>>,
    /// Sampling temperature (0.0–2.0).
    pub temperature: Option<String>,
    /// Nucleus sampling probability mass.
    pub top_p: Option<String>,
    /// Maximum number of tokens to generate.
    pub max_tokens: Option<u64>,
}

/// The chat tool.
pub struct ChatTool;

/// Whether a history role is accepted.
pub open spec fn role_ok(role: Seq<char>) -> bool {
    role == "system"@ || role == "user"@ || role == "assistant"@
}

/// The first history role that is not accepted, if any.
pub open spec fn first_bad_role(h: Seq<HistoryMessage>) -> Option<Seq<char>>
    decreases h.len(),
{
    if h.len() == 0 {
        None
    } else if !role_ok(h[0].role@) {
        Some(h[0].role@)
    } else {
        first_bad_role(h.drop_first())
    }
}

/// The history of a call, empty when none is given.
pub open spec fn history_of(p: ChatToolParams) -> Seq<HistoryMessage> {
    match p.history {
        Some(h) => h@,
        None => Seq::<HistoryMessage>::empty(),
    }
}

/// The system message of a call: present when the system prompt is set and
/// not blank.
pub open spec fn system_turns(system: Option<String>) -> Seq<(Seq<char>, Json)> {
    match system {
        Some(s) => if trim(s@).len() > 0 {
            seq![("system"@, Json::Str(s@))]
        } else {
            Seq::<(Seq<char>, Json)>::empty()
        },
        None => Seq::<(Seq<char>, Json)>::empty(),
    }
}

/// History messages as (role, content) turns.
pub open spec fn history_turns(h: Seq<HistoryMessage>) -> Seq<(Seq<char>, Json)> {
    h.map_values(|m: HistoryMessage| (m.role@, Json::Str(m.content@)))
}

/// Chat messages as (role, content) turns.
pub open spec fn turns(ms: Seq<ChatMessage>) -> Seq<(Seq<char>, Json)> {
    ms.map_values(|m: ChatMessage| (m.role@, m.content@))
}

/// The messages of a chat call: the system message, the history, then the
/// prompt as the final user message.
pub open spec fn chat_turns(p: ChatToolParams) -> Seq<(Seq<char>, Json)> {
    system_turns(p.system) + history_turns(history_of(p)) + seq![("user"@, Json::Str(p.prompt@))]
}

/// The message of the error for a history role that is not accepted.
pub open spec fn bad_role_message(role: Seq<char>) -> Seq<char> {
    "invalid history role: "@ + role
}

/// Same optional number text.
pub open spec fn same_number(a: Option<String>, b: Option<String>) -> bool {
    match (a, b) {
        (Some(x), Some(y)) => x@ == y@,
        (None, None) => true,
        _ => false,
    }
}

fn push_message(out: &mut Vec<ChatMessage>, role: &str, content: &str)
    ensures
        turns(final(out)@) == turns(old(out)@).push((role@, Json::Str(content@))),
{
    let ghost before = out@;
    out.push(ChatMessage::text(role, content));
    assert(turns(out@) =~= turns(before).push((role@, Json::Str(content@))));
}

fn copy_number(v: &Option<String>) -> (r: Option<String>)
    ensures
        same_number(r, *v),
{
    match v {
        Some(x) => Some(owned(x.as_str())),
        None => None,
    }
}

impl ChatTool {
    /// The chat request of a call with `params`, for the chat model `model`.
    ///
    /// Fails when a history message has a role other than `system`,
    /// `user` or `assistant`. The temperature range is checked by the caller.
    pub fn build_request(params: &ChatToolParams, model: &str) -> (r: core::result::Result<
        ChatRequest,
        ToolError,
    >)
        ensures
            match first_bad_role(history_of(*params)) {
                Some(b) => r matches Err(e) && e.is_invalid(TOOL_CHAT@, bad_role_message(b)),
                None => r matches Ok(q) && {
                    &&& q.model@ == model@
                    &&& turns(q.messages@) == chat_turns(*params)
                    &&& same_number(q.temperature, params.temperature)
                    &&& same_number(q.top_p, params.top_p)
                    &&& q.max_tokens == params.max_tokens
                },
            },
    {
        let mut messages: Vec<ChatMessage> = Vec::new();
        assert(turns(messages@) =~= Seq::<(Seq<char>, Json)>::empty());
        match &params.system {
            Some(s) => {
                let t = crate::text::trim_str(s.as_str());
                if !t.as_str().is_empty() {
                    push_message(&mut messages, "system", s.as_str());
                }
            },
            None => {},
        }
        let ghost sys = turns(messages@);
        assert(sys =~= system_turns(params.system));
        let empty: Vec<HistoryMessage> = Vec::new();
        let history = match &params.history {
            Some(h) => h,
            None => &empty,
        };
        assert(history@ == history_of(*params));
        let mut i: usize = 0;
        assert(history@.skip(0) =~= history@);
        while i < history.len()
            invariant
                0 <= i <= history@.len(),
                history@ == history_of(*params),
                sys == system_turns(params.system),
                turns(messages@) == sys + history_turns(history@.take(i as int)),
                first_bad_role(history@) == first_bad_role(history@.skip(i as int)),
            decreases history@.len() - i,
        {
            let role = history[i].role.as_str();
            assert(history@.skip(i as int)[0] == history@[i as int]);
            assert(history@.skip(i as int).drop_first() =~= history@.skip(i + 1));
            if !(str_eq(role, "system") || str_eq(role, "user") || str_eq(role, "assistant")) {
                return Err(ToolError::invalid(TOOL_CHAT, concat("invalid history role: ", role)));
            }
            push_message(&mut messages, role, history[i].content.as_str());
            assert(history_turns(history@.take(i + 1 as int)) =~= history_turns(
                history@.take(i as int),
            ).push((history@[i as int].role@, Json::Str(history@[i as int].content@))));
            i = i + 1;
        }
        assert(history@.take(history@.len() as int) =~= history@);
        assert(history@.skip(history@.len() as int) =~= Seq::<HistoryMessage>::empty());
        push_message(&mut messages, "user", params.prompt.as_str());
        assert(turns(messages@) =~= chat_turns(*params));
        Ok(
            ChatRequest {
                model: owned(model),
                messages,
                temperature: copy_number(&params.temperature),
                top_p: copy_number(&params.top_p),
                max_tokens: params.max_tokens,
            },
        )
    }

    /// The text a chat call returns: the reply text (or `raw`, the reply
    /// rendered as JSON text, when it holds none), followed by the usage
    /// summary when there is one.
    pub fn output(response: &JsonValue, raw: &str, usage: Option<&str>) -> (r: String)
        ensures
            r@ == (match chat_text_of(*response) {
                Some(t) => t,
                None => raw@,
            }) + match usage {
                Some(u) => "\n\n---\n_usage: "@ + u@ + "_"@,
                None => Seq::<char>::empty(),
            },
    {
        let mut text = match extract_chat_text(response) {
            Some(t) => t,
            None => owned(raw),
        };
        match usage {
            Some(u) => {
                push_str(&mut text, "\n\n---\n_usage: ");
                push_str(&mut text, u);
                push_str(&mut text, "_");
            },
            None => {},
        }
        text
    }

    /// The answer of a chat call once the request ended with `reply`: the
    /// output for the response and its pretty JSON text, or the failure.
    pub fn answer(reply: core::result::Result<(JsonValue, String), Error>) -> (r: core::result::Result<
        String,
        ToolError,
    >)
        ensures
            match reply {
                Ok((response, raw)) => r matches Ok(t) && t@ == match chat_text_of(response) {
                    Some(x) => x,
                    None => raw@,
                },
                Err(e) => r matches Err(x) && x.is_failed("Agnes chat failed: "@ + e.text()),
            },
    {
        match reply {
            Ok((response, raw)) => Ok(ChatTool::output(&response, raw.as_str(), None)),
            Err(e) => Err(ToolError::failed("Agnes chat failed: ", &e)),
        }
    }
}

} // verus!
