//! Prompt enhancement: expand a simple prompt into a rich, detailed prompt
//! for image or video generation, with the Agnes chat model.

use vstd::prelude::*;

use crate::error::Error;
use crate::json::{Json, JsonValue};
use crate::text::{concat, lower, owned, push_str, str_eq, to_lower, trim, trim_str};
use crate::tools::agnes_client::{chat_text_of, extract_chat_text, ChatMessage, ChatRequest};
use crate::tools::ToolError;

verus! {

/// Name of the prompt-enhancement tool.
pub const TOOL_ENHANCE_PROMPT: &'static str = "agnes_enhance_prompt";

/// System prompt for video prompts.
pub const VIDEO_SYSTEM_PROMPT: &'static str = "You are an expert AI video-generation prompt engineer. Given a simple idea, produce ONE vivid, detailed video prompt covering: subject, action, scene/environment, camera movement, lighting, mood, and style. Keep it under 120 words. Output only the prompt.";

/// System prompt for image prompts.
pub const IMAGE_SYSTEM_PROMPT: &'static str = "You are an expert AI image-generation prompt engineer. Given a simple idea, produce ONE vivid, detailed image prompt covering: subject, scene/environment, style, lighting, composition, and quality requirements. Keep it under 100 words. Output only the prompt.";

/// What a prompt is enhanced for.
#[derive(Clone, Copy, PartialEq, Eq, Structural, Debug)]
pub enum PromptTarget {
    Image,
    Video,
}

/// The name of a target.
pub open spec fn target_label(t: PromptTarget) -> Seq<char> {
    match t {
        PromptTarget::Image => "image"@,
        PromptTarget::Video => "video"@,
    }
}

impl PromptTarget {
    /// The name of this target: `image` or `video`.
    pub fn label(&self) -> (r: &'static str)
        ensures
            r@ == target_label(*self),
    {
        match self {
            PromptTarget::Image => "image",
            PromptTarget::Video => "video",
        }
    }
}

/// Parameters of the prompt-enhancement tool.
#[derive(Debug, Clone)]
pub struct EnhancePromptToolParams {
    /// The simple prompt to expand (e.g. "a cat on the beach").
    pub prompt: String,
    /// Target modality: "image" or "video". Defaults to "image".
    pub target: String,
}

/// The default target: `image`.
pub fn default_target() -> (r: String)
    ensures
        r@ == "image"@,
{
    owned("image")
}

/// The system prompt for a target name: the video prompt for `video`, the
/// image prompt for anything else.
pub open spec fn system_prompt(target: Seq<char>) -> Seq<char> {
    if target == "video"@ {
        VIDEO_SYSTEM_PROMPT@
    } else {
        IMAGE_SYSTEM_PROMPT@
    }
}

/// Build the system prompt that guides the chat model to expand prompts.
pub fn build_system_prompt(target: &str) -> (r: String)
    ensures
        r@ == system_prompt(target@),
{
    if str_eq(target, "video") {
        owned(VIDEO_SYSTEM_PROMPT)
    } else {
        owned(IMAGE_SYSTEM_PROMPT)
    }
}

/// The user message asking for an enhanced prompt.
pub open spec fn expand_request_text(target: Seq<char>, prompt: Seq<char>) -> Seq<char> {
    "Expand this "@ + target
        + " prompt into a single rich, detailed generation prompt. Output ONLY the prompt text, no preamble:\n\n"@
        + prompt
}

/// The message of the error for an unknown target.
pub open spec fn bad_target_message(target: Seq<char>) -> Seq<char> {
    "target must be 'image' or 'video', got: "@ + target
}

/// Read a target name: trimmed and lower-cased, `image` or `video`.
pub fn parse_target(target: &str) -> (r: core::result::Result<PromptTarget, ToolError>)
    ensures
        lower(trim(target@)) == "image"@ ==> r == Ok::<PromptTarget, ToolError>(
            PromptTarget::Image,
        ),
        lower(trim(target@)) == "video"@ ==> r == Ok::<PromptTarget, ToolError>(
            PromptTarget::Video,
        ),
        lower(trim(target@)) != "image"@ && lower(trim(target@)) != "video"@ ==> (r matches Err(
            e,
        ) && e.is_invalid(TOOL_ENHANCE_PROMPT@, bad_target_message(target@))),
{
    proof {
        reveal_strlit("image");
        reveal_strlit("video");
        assert("image"@[0] != "video"@[0]);
    }
    let t = trim_str(target);
    let l = to_lower(t.as_str());
    if str_eq(l.as_str(), "image") {
        Ok(PromptTarget::Image)
    } else if str_eq(l.as_str(), "video") {
        Ok(PromptTarget::Video)
    } else {
        Err(ToolError::invalid(TOOL_ENHANCE_PROMPT, concat("target must be 'image' or 'video', got: ", target)))
    }
}

/// Whether `r` is the chat request that asks for an enhanced `target`
/// prompt from `prompt`, with the chat model `model`.
pub open spec fn is_enhance_request(r: ChatRequest, prompt: Seq<char>, target: PromptTarget, model: Seq<char>) -> bool {
    &&& r.model@ == model
    &&& r.messages@.len() == 2
    &&& r.messages@[0].role@ == "system"@
    &&& r.messages@[0].content@ == Json::Str(system_prompt(target_label(target)))
    &&& r.messages@[1].role@ == "user"@
    &&& r.messages@[1].content@ == Json::Str(expand_request_text(target_label(target), prompt))
    &&& r.temperature matches Some(t) && t@ == "0.8"@
    &&& r.top_p is None
    &&& r.max_tokens == Some(512u64)
}

/// The chat request that expands `prompt` for `target`: the target's system
/// prompt, the expansion request, temperature 0.8 and at most 512 tokens.
pub fn enhance_request(prompt: &str, target: PromptTarget, model: &str) -> (r: ChatRequest)
    ensures
        is_enhance_request(r, prompt@, target, model@),
{
    let label = target.label();
    let system = build_system_prompt(label);
    let mut user = owned("Expand this ");
    push_str(&mut user, label);
    push_str(
        &mut user,
        " prompt into a single rich, detailed generation prompt. Output ONLY the prompt text, no preamble:\n\n",
    );
    push_str(&mut user, prompt);
    let mut messages: Vec<ChatMessage> = Vec::new();
    messages.push(ChatMessage::text("system", system.as_str()));
    messages.push(ChatMessage::text("user", user.as_str()));
    ChatRequest {
        model: owned(model),
        messages,
        temperature: Some(owned("0.8")),
        top_p: None,
        max_tokens: Some(512),
    }
}

/// The output of the prompt-enhancement tool: the reply text trimmed, or
/// the raw response (`raw`) when it holds no text.
pub open spec fn enhancement_output(response: JsonValue, raw: Seq<char>) -> Seq<char> {
    match chat_text_of(response) {
        Some(t) => trim(t),
        None => raw,
    }
}

/// The message of the error when an enhancement reply holds no text.
pub const NO_ENHANCED_TEXT: &'static str = "the chat reply holds no text";

/// The enhanced prompt in a chat reply: its text trimmed.
pub open spec fn enhanced_prompt_of(response: JsonValue) -> core::result::Result<Seq<char>, Seq<char>> {
    match chat_text_of(response) {
        Some(t) => Ok(trim(t)),
        None => Err(NO_ENHANCED_TEXT@),
    }
}

/// The enhanced prompt in a chat reply, or why there is none.
pub fn enhanced_prompt(response: &JsonValue) -> (r: core::result::Result<String, String>)
    ensures
        match enhanced_prompt_of(*response) {
            Ok(t) => r matches Ok(x) && x@ == t,
            Err(m) => r matches Err(x) && x@ == m,
        },
{
    match extract_chat_text(response) {
        Some(t) => Ok(trim_str(t.as_str())),
        None => Err(owned(NO_ENHANCED_TEXT)),
    }
}

/// The prompt-enhancement tool.
pub struct EnhancePromptTool;

impl EnhancePromptTool {
    /// The chat request of a call with `params`, for the chat model `model`.
    pub fn build_request(params: &EnhancePromptToolParams, model: &str) -> (r: core::result::Result<
        ChatRequest,
        ToolError,
    >)
        ensures
            lower(trim(params.target@)) == "image"@ ==> (r matches Ok(q) && is_enhance_request(
                q,
                params.prompt@,
                PromptTarget::Image,
                model@,
            )),
            lower(trim(params.target@)) == "video"@ ==> (r matches Ok(q) && is_enhance_request(
                q,
                params.prompt@,
                PromptTarget::Video,
                model@,
            )),
            lower(trim(params.target@)) != "image"@ && lower(trim(params.target@)) != "video"@ ==> (
            r matches Err(e) && e.is_invalid(TOOL_ENHANCE_PROMPT@, bad_target_message(params.target@))),
    {
        match parse_target(params.target.as_str()) {
            Ok(t) => Ok(enhance_request(params.prompt.as_str(), t, model)),
            Err(e) => Err(e),
        }
    }

    /// The text the tool returns for a chat reply; `raw` is the reply
    /// rendered as JSON text.
    pub fn output(response: &JsonValue, raw: &str) -> (r: String)
        ensures
            r@ == enhancement_output(*response, raw@),
    {
        match extract_chat_text(response) {
            Some(t) => trim_str(t.as_str()),
            None => owned(raw),
        }
    }

    /// The answer of a call once its request ended with `reply`: the
    /// output for the response and its pretty JSON text, or the failure.
    pub fn answer(reply: core::result::Result<(JsonValue, String), Error>) -> (r: core::result::Result<
        String,
        ToolError,
    >)
        ensures
            match reply {
                Ok((response, raw)) => r matches Ok(t) && t@ == enhancement_output(response, raw@),
                Err(e) => r matches Err(x) && x.is_failed(
                    "Agnes prompt enhancement failed: "@ + e.text(),
                ),
            },
    {
        match reply {
            Ok((response, raw)) => Ok(EnhancePromptTool::output(&response, raw.as_str())),
            Err(e) => Err(ToolError::failed("Agnes prompt enhancement failed: ", &e)),
        }
    }
}


/// Each target gets its own system prompt: `video` the video prompt, any
/// other target the image prompt, and the two differ; so an enhancement
/// request for a video carries the video prompt and one for an image the
/// image prompt.
pub proof fn law_system_prompt_per_target(
    t: Seq<char>,
    q: ChatRequest,
    prompt: Seq<char>,
    target: PromptTarget,
    model: Seq<char>,
)
    ensures
        system_prompt("video"@) == VIDEO_SYSTEM_PROMPT@,
        t != "video"@ ==> system_prompt(t) == IMAGE_SYSTEM_PROMPT@,
        VIDEO_SYSTEM_PROMPT@ != IMAGE_SYSTEM_PROMPT@,
        is_enhance_request(q, prompt, target, model) ==> q.messages@[0].content@ == Json::Str(
            if target == PromptTarget::Video {
                VIDEO_SYSTEM_PROMPT@
            } else {
                IMAGE_SYSTEM_PROMPT@
            },
        ),
{
    reveal_strlit("You are an expert AI video-generation prompt engineer. Given a simple idea, produce ONE vivid, detailed video prompt covering: subject, action, scene/environment, camera movement, lighting, mood, and style. Keep it under 120 words. Output only the prompt.");
    reveal_strlit("You are an expert AI image-generation prompt engineer. Given a simple idea, produce ONE vivid, detailed image prompt covering: subject, scene/environment, style, lighting, composition, and quality requirements. Keep it under 100 words. Output only the prompt.");
    reveal_strlit("video");
    reveal_strlit("image");
    assert(VIDEO_SYSTEM_PROMPT@[21] != IMAGE_SYSTEM_PROMPT@[21]);
    assert("video"@ != "image"@) by {
        assert("video"@[0] != "image"@[0]);
    }
}

} // verus!
