//! Image recognition: multimodal image understanding through the
//! OpenAI-compatible chat endpoint with vision content.

use vstd::prelude::*;

use crate::error::Error;
use crate::json::{Json, JsonValue};
use crate::text::{concat, concat3, lower, owned, str_eq, to_lower, trim};
use crate::tools::agnes_client::{chat_text_of, extract_chat_text, ChatMessage, ChatRequest};
use crate::tools::chat::{system_turns, turns};
use crate::tools::{ToolError, TOOL_IMAGE_RECOGNITION};
use crate::utils::resolved_image;

verus! {

/// Parameters of an image recognition call.
#[derive(Debug, Clone)]
pub struct ImageRecognitionToolParams {
    /// The image to analyze: an http(s) URL, a local file path, a `data:`
    /// URI, or raw base64 text.
    pub image: String,
    /// The question or instruction about the image.
    pub prompt: String,
    /// Optional system prompt.
    pub system: Option<String>,
    /// Optional detail level for vision processing: `low`, `high`, or `auto`.
    pub detail: Option<String>,
}

/// The image recognition tool.
pub struct ImageRecognitionTool;

/// A detail level read case-insensitively: the lower-cased level, or the
/// message of the error.
pub open spec fn detail_of(d: Seq<char>) -> core::result::Result<Seq<char>, Seq<char>> {
    let l = lower(d);
    if l == "low"@ || l == "high"@ || l == "auto"@ {
        Ok(l)
    } else {
        Err("invalid detail '"@ + l + "'. Expected one of: low, high, auto."@)
    }
}

/// Validate a vision detail level, returning the lowercased value or an error.
pub fn validate_detail(d: &str) -> (r: core::result::Result<String, String>)
    ensures
        match detail_of(d@) {
            Ok(l) => r matches Ok(x) && x@ == l,
            Err(m) => r matches Err(x) && x@ == m,
        },
{
    let l = to_lower(d);
    if str_eq(l.as_str(), "low") || str_eq(l.as_str(), "high") || str_eq(l.as_str(), "auto") {
        Ok(l)
    } else {
        Err(concat3("invalid detail '", l.as_str(), "'. Expected one of: low, high, auto."))
    }
}

/// The vision content of a question: a text part and an image part.
pub open spec fn vision_content(prompt: Seq<char>, url: Seq<char>, detail: Option<Seq<char>>) -> Json {
    let image = match detail {
        Some(d) => seq![("url"@, Json::Str(url)), ("detail"@, Json::Str(d))],
        None => seq![("url"@, Json::Str(url))],
    };
    Json::Arr(
        seq![
            Json::Obj(seq![("type"@, Json::Str("text"@)), ("text"@, Json::Str(prompt))]),
            Json::Obj(seq![("type"@, Json::Str("image_url"@)), ("image_url"@, Json::Obj(image))]),
        ],
    )
}

/// Build the OpenAI vision-style content array (a text part + an image_url part).
pub fn build_vision_content(prompt: &str, image_url: &str, detail: Option<String>) -> (r: JsonValue)
    ensures
        r@ == vision_content(
            prompt@,
            image_url@,
            match detail {
                Some(d) => Some(d@),
                None => None,
            },
        ),
{
    let ghost dv = match &detail {
        Some(d) => Some(d@),
        None => None::<Seq<char>>,
    };
    let mut image = crate::json::no_entries();
    crate::json::push_entry(&mut image, "url", crate::json::string_value(image_url));
    match &detail {
        Some(d) => crate::json::push_entry(&mut image, "detail", crate::json::string_value(d.as_str())),
        None => {},
    }
    let ghost image_v = crate::json::entries_view(image@);
    assert(image_v =~= match dv {
        Some(d) => seq![("url"@, Json::Str(image_url@)), ("detail"@, Json::Str(d))],
        None => seq![("url"@, Json::Str(image_url@))],
    });
    let mut text_part = crate::json::no_entries();
    crate::json::push_entry(&mut text_part, "type", crate::json::string_value("text"));
    crate::json::push_entry(&mut text_part, "text", crate::json::string_value(prompt));
    let mut image_part = crate::json::no_entries();
    crate::json::push_entry(&mut image_part, "type", crate::json::string_value("image_url"));
    crate::json::push_entry(&mut image_part, "image_url", JsonValue::Object(image));
    let ghost tv = crate::json::entries_view(text_part@);
    let ghost iv = crate::json::entries_view(image_part@);
    assert(tv =~= seq![("type"@, Json::Str("text"@)), ("text"@, Json::Str(prompt@))]);
    assert(iv =~= seq![("type"@, Json::Str("image_url"@)), ("image_url"@, Json::Obj(image_v))]);
    let mut parts: Vec<JsonValue> = Vec::new();
    assert(crate::json::items_view(parts@) =~= Seq::<Json>::empty());
    crate::json::push_item(&mut parts, JsonValue::Object(text_part));
    crate::json::push_item(&mut parts, JsonValue::Object(image_part));
    assert(crate::json::items_view(parts@) =~= seq![Json::Obj(tv), Json::Obj(iv)]);
    JsonValue::Array(parts)
}

impl ImageRecognitionTool {
    /// The chat request of a call with `params`, whose image resolved to
    /// `image_url`, for the chat model `model`.
    ///
    /// Fails when the detail level is not `low`, `high` or `auto`.
    pub fn build_request(
        params: &ImageRecognitionToolParams,
        image_url: &str,
        model: &str,
    ) -> (r: core::result::Result<ChatRequest, ToolError>)
        ensures
            match params.detail {
                Some(d) => detail_of(d@) is Err ==> (r matches Err(e) && e.is_invalid(
                    TOOL_IMAGE_RECOGNITION@,
                    detail_of(d@)->Err_0,
                )),
                None => true,
            },
            (match params.detail {
                Some(d) => detail_of(d@) is Ok,
                None => true,
            }) ==> (r matches Ok(q) && {
                &&& q.model@ == model@
                &&& turns(q.messages@) == system_turns(params.system) + seq![
                    (
                        "user"@,
                        vision_content(
                            params.prompt@,
                            image_url@,
                            match params.detail {
                                Some(d) => Some(detail_of(d@)->Ok_0),
                                None => None,
                            },
                        ),
                    ),
                ]
                &&& q.temperature is None
                &&& q.top_p is None
                &&& q.max_tokens is None
            }),
    {
        let mut messages: Vec<ChatMessage> = Vec::new();
        match &params.system {
            Some(s) => {
                let t = crate::text::trim_str(s.as_str());
                if !t.as_str().is_empty() {
                    messages.push(ChatMessage::text("system", s.as_str()));
                }
            },
            None => {},
        }
        let ghost sys = turns(messages@);
        assert(sys =~= system_turns(params.system));
        let detail = match &params.detail {
            Some(d) => match validate_detail(d.as_str()) {
                Ok(l) => Some(l),
                Err(m) => return Err(ToolError::invalid(TOOL_IMAGE_RECOGNITION, m)),
            },
            None => None,
        };
        let content = build_vision_content(params.prompt.as_str(), image_url, detail);
        let ghost cv = content@;
        let ghost before = messages@;
        messages.push(ChatMessage { role: owned("user"), content });
        assert(turns(messages@) =~= turns(before).push(("user"@, cv)));
        Ok(
            ChatRequest {
                model: owned(model),
                messages,
                temperature: None,
                top_p: None,
                max_tokens: None,
            },
        )
    }

    /// The text a call returns: the reply text, or `raw` (the reply rendered
    /// as JSON text) when it holds none.
    pub fn output(response: &JsonValue, raw: &str) -> (r: String)
        ensures
            r@ == match chat_text_of(*response) {
                Some(t) => t,
                None => raw@,
            },
    {
        match extract_chat_text(response) {
            Some(t) => t,
            None => owned(raw),
        }
    }

    /// The answer of a call once its request ended with `reply`: the
    /// output for the response and its pretty JSON text, or the failure.
    pub fn answer(reply: core::result::Result<(JsonValue, String), Error>) -> (r: core::result::Result<
        String,
        ToolError,
    >)
        ensures
            match reply {
                Ok((response, raw)) => r matches Ok(t) && t@ == match chat_text_of(response) {
                    Some(x) => x,
                    None => raw@,
                },
                Err(e) => r matches Err(x) && x.is_failed(
                    "Agnes image recognition failed: "@ + e.text(),
                ),
            },
    {
        match reply {
            Ok((response, raw)) => Ok(ImageRecognitionTool::output(&response, raw.as_str())),
            Err(e) => Err(ToolError::failed("Agnes image recognition failed: ", &e)),
        }
    }

    /// The image a call sends, once the local file its input names (if
    /// any) was read with outcome `file`: the resolved image, or the
    /// refusal when the file could not be read.
    pub fn load_image(image: &str, file: core::result::Result<Option<Vec<u8>>, String>) -> (r:
        core::result::Result<String, ToolError>)
        ensures
            match file {
                Ok(f) => r matches Ok(u) && u@ == resolved_image(
                    image@,
                    match f {
                        Some(b) => Some(b@),
                        None => None,
                    },
                ),
                Err(m) => r matches Err(x) && x.is_invalid(
                    TOOL_IMAGE_RECOGNITION@,
                    "could not load image: "@ + m@,
                ),
            },
    {
        match file {
            Ok(f) => Ok(crate::utils::resolve_image_input(image, f.as_ref())),
            Err(m) => Err(ToolError::invalid(TOOL_IMAGE_RECOGNITION, concat("could not load image: ", m.as_str()))),
        }
    }
}

} // verus!
