//! Image generation (text-to-image and image-to-image): the request body,
//! the text a call returns, and where downloads go.

use vstd::prelude::*;

use crate::json::{str_array, Json, JsonValue};
use crate::error::Error;
use crate::text::{copy_strings, has_suffix, join, join_strings, owned, push_str, push_string};
use crate::tools::agnes_client::{collect_urls, urls_of, ChatRequest};
use crate::tools::prompt::{enhance_request, is_enhance_request, PromptTarget};
use crate::tools::{
    choose_enhanced, choose_prompt, enhancement_outcome, is_choice, PromptChoice, ToolError,
    TOOL_GENERATE_IMAGE,
};
use crate::utils::{derived_filename, resolved_image, size_shaped};

verus! {

/// Parameters of an image generation call.
#[derive(Debug, Clone)]
pub struct GenerateImageToolParams {
    /// Text instruction for generation or editing.
    pub prompt: String,
    /// Output size as WIDTHxHEIGHT in pixels. Defaults to "1024x768".
    pub size: String,
    /// Optional reference image(s) for image-to-image generation.
    pub image_urls: Option<Vec<String>>,
    /// Whether to expand the prompt before generation.
    pub enhance_prompt: bool,
    /// Optional local path to download the generated image(s) to.
    pub save_to: Option<String>,
}

/// The default output size.
pub fn default_size() -> (r: String)
    ensures
        r@ == "1024x768"@,
{
    owned("1024x768")
}

/// The image generation tool.
pub struct GenerateImageTool;

/// The contents of the local file for the `i`-th image input, if given.
pub open spec fn file_at(files: Seq<Option<Vec<u8>>>, i: int) -> Option<Seq<u8>> {
    if 0 <= i < files.len() {
        match files[i] {
            Some(b) => Some(b@),
            None => None,
        }
    } else {
        None
    }
}

/// The image inputs of a call, none when not given.
pub open spec fn inputs_of(image_urls: Option<Vec<String>>) -> Seq<String> {
    match image_urls {
        Some(v) => v@,
        None => Seq::<String>::empty(),
    }
}

/// Resolve `image_urls` entries into Agnes-API-acceptable form.
///
/// Each entry may be an http(s) URL (passed through unchanged), a local
/// file path, a `data:` URI, or raw base64 text; the latter three are
/// normalized to `data:` URIs so the API can receive them inline.
/// `files[i]` holds the contents of the local file that entry `i` names,
/// where it names one.
pub fn resolve_image_inputs(image_urls: Option<&Vec<String>>, files: &Vec<Option<Vec<u8>>>) -> (r:
    Vec<String>)
    ensures
        r@.len() == inputs_of(
            match image_urls {
                Some(v) => Some(*v),
                None => None,
            },
        ).len(),
        forall|i: int|
            0 <= i < r@.len() ==> #[trigger] r@[i]@ == resolved_image(
                inputs_of(
                    match image_urls {
                        Some(v) => Some(*v),
                        None => None,
                    },
                )[i]@,
                file_at(files@, i),
            ),
{
    let empty: Vec<String> = Vec::new();
    let raw = match image_urls {
        Some(v) => v,
        None => &empty,
    };
    let mut out: Vec<String> = Vec::new();
    let mut i: usize = 0;
    while i < raw.len()
        invariant
            0 <= i <= raw@.len(),
            out@.len() == i,
            raw@ == inputs_of(
                match image_urls {
                    Some(v) => Some(*v),
                    None => None,
                },
            ),
            forall|k: int|
                0 <= k < i ==> #[trigger] out@[k]@ == resolved_image(raw@[k]@, file_at(files@, k)),
        decreases raw@.len() - i,
    {
        let file = if i < files.len() {
            match &files[i] {
                Some(b) => Some(b),
                None => None,
            }
        } else {
            None
        };
        let x = crate::utils::resolve_image_input(raw[i].as_str(), file);
        out.push(x);
        i = i + 1;
    }
    out
}

/// The message of a failed validation, as a tool error: the error's text.
pub open spec fn size_refusal(size: Seq<char>) -> Seq<char> {
    "configuration error: "@ + crate::utils::bad_size_message(size)
}

/// The body of an image generation request.
pub open spec fn image_body(
    model: Seq<char>,
    prompt: Seq<char>,
    size: Seq<char>,
    images: Seq<Seq<char>>,
) -> Json {
    let extra = if images.len() == 0 {
        seq![("response_format"@, Json::Str("url"@))]
    } else {
        seq![("response_format"@, Json::Str("url"@)), ("image"@, str_array(images))]
    };
    Json::Obj(
        seq![
            ("model"@, Json::Str(model)),
            ("prompt"@, Json::Str(prompt)),
            ("size"@, Json::Str(size)),
            ("extra_body"@, Json::Obj(extra)),
        ],
    )
}

/// The mode of a call: image-to-image when it has reference images.
pub open spec fn image_mode(has_images: bool) -> Seq<char> {
    if has_images {
        "image-to-image"@
    } else {
        "text-to-image"@
    }
}

/// Lines appended after the result: the enhanced prompt, the warning.
pub open spec fn notes(choice: PromptChoice) -> Seq<char> {
    (match choice.enhanced_note {
        Some(n) => "Enhanced prompt: "@ + n@ + "\n"@,
        None => Seq::<char>::empty(),
    }) + match choice.warning {
        Some(w) => w@ + "\n"@,
        None => Seq::<char>::empty(),
    }
}

/// One `- url` line per URL.
pub open spec fn url_lines(urls: Seq<Seq<char>>) -> Seq<char>
    decreases urls.len(),
{
    if urls.len() == 0 {
        Seq::<char>::empty()
    } else {
        url_lines(urls.drop_last()) + "- "@ + urls.last() + "\n"@
    }
}

/// The text an image generation call returns.
///
/// With no URL: the raw response (`raw`), then a blank line and the
/// notes. Otherwise the URL list, the notes, and the download report when
/// there is one.
pub open spec fn image_output(
    urls: Seq<Seq<char>>,
    raw: Seq<char>,
    has_images: bool,
    choice: PromptChoice,
    report: Option<Seq<char>>,
) -> Seq<char> {
    if urls.len() == 0 {
        "Image generated ("@ + image_mode(has_images)
            + "), but no downloadable URL was returned.\n\nRaw response:\n"@ + raw + (
        match choice.enhanced_note {
            Some(n) => "\nEnhanced prompt: "@ + n@ + "\n"@,
            None => Seq::<char>::empty(),
        }) + match choice.warning {
            Some(w) => w@ + "\n"@,
            None => Seq::<char>::empty(),
        }
    } else {
        "Image generated ("@ + image_mode(has_images) + "):\n"@ + url_lines(urls) + notes(choice)
            + match report {
            Some(r) => r + "\n"@,
            None => Seq::<char>::empty(),
        }
    }
}

/// The download report of a set of downloads: the saved paths, the failures.
pub open spec fn save_report_text(saved: Seq<Seq<char>>, errors: Seq<Seq<char>>) -> Seq<char> {
    if saved.len() == 0 && errors.len() > 0 {
        "[download failed: "@ + join(errors, "; "@) + "]"@
    } else if errors.len() == 0 {
        "Saved to: "@ + join(saved, ", "@)
    } else {
        "Saved to: "@ + join(saved, ", "@) + "; [partial failures: "@ + join(errors, "; "@) + "]"@
    }
}

fn push_notes(out: &mut String, choice: &PromptChoice)
    ensures
        final(out)@ == old(out)@ + notes(*choice),
{
    let ghost before = out@;
    match &choice.enhanced_note {
        Some(n) => {
            push_str(out, "Enhanced prompt: ");
            push_str(out, n.as_str());
            push_str(out, "\n");
        },
        None => {},
    }
    match &choice.warning {
        Some(w) => {
            push_str(out, w.as_str());
            push_str(out, "\n");
        },
        None => {},
    }
    assert(out@ =~= before + notes(*choice));
}

impl GenerateImageTool {
    /// Check the arguments of a call: the size must match [`crate::utils::SIZE_PATTERN`].
    pub fn validate(params: &GenerateImageToolParams) -> (r: core::result::Result<(), ToolError>)
        ensures
            r is Ok <==> size_shaped(params.size@),
            r matches Err(e) ==> e.is_invalid(TOOL_GENERATE_IMAGE@, size_refusal(params.size@)),
    {
        match crate::utils::validate_size(params.size.as_str()) {
            Ok(()) => Ok(()),
            Err(e) => Err(ToolError::invalid(TOOL_GENERATE_IMAGE, e.message())),
        }
    }

    /// The request body: model, prompt, size, and the extra body asking for
    /// URLs and carrying the reference images when there are any.
    pub fn build_body(model: &str, prompt: &str, size: &str, images: &Vec<String>) -> (r: JsonValue)
        ensures
            r@ == image_body(model@, prompt@, size@, images.deep_view()),
    {
        let mut extra = crate::json::no_entries();
        crate::json::push_entry(&mut extra, "response_format", crate::json::string_value("url"));
        if images.len() > 0 {
            let arr = crate::json::string_array(images);
            assert(images@.map_values(|x: String| x@) =~= images.deep_view());
            crate::json::push_entry(&mut extra, "image", arr);
        }
        let ghost ev = crate::json::entries_view(extra@);
        assert(ev =~= if images.deep_view().len() == 0 {
            seq![("response_format"@, Json::Str("url"@))]
        } else {
            seq![("response_format"@, Json::Str("url"@)), ("image"@, str_array(images.deep_view()))]
        });
        let mut body = crate::json::no_entries();
        crate::json::push_entry(&mut body, "model", crate::json::string_value(model));
        crate::json::push_entry(&mut body, "prompt", crate::json::string_value(prompt));
        crate::json::push_entry(&mut body, "size", crate::json::string_value(size));
        crate::json::push_entry(&mut body, "extra_body", JsonValue::Object(extra));
        assert(crate::json::entries_view(body@) =~= seq![
            ("model"@, Json::Str(model@)),
            ("prompt"@, Json::Str(prompt@)),
            ("size"@, Json::Str(size@)),
            ("extra_body"@, Json::Obj(ev)),
        ]);
        JsonValue::Object(body)
    }

    /// The text a call returns, given the URLs found in the response, the
    /// response rendered as JSON text (`raw`), whether reference images were
    /// sent, how prompt enhancement went, and the download report.
    pub fn output(
        urls: &Vec<String>,
        raw: &str,
        has_images: bool,
        choice: &PromptChoice,
        report: Option<&str>,
    ) -> (r: String)
        ensures
            r@ == image_output(
                urls.deep_view(),
                raw@,
                has_images,
                *choice,
                match report {
                    Some(x) => Some(x@),
                    None => None,
                },
            ),
    {
        let mode = if has_images {
            "image-to-image"
        } else {
            "text-to-image"
        };
        let mut out = owned("Image generated (");
        push_str(&mut out, mode);
        if urls.len() == 0 {
            push_str(&mut out, "), but no downloadable URL was returned.\n\nRaw response:\n");
            push_str(&mut out, raw);
            match &choice.enhanced_note {
                Some(n) => {
                    push_str(&mut out, "\nEnhanced prompt: ");
                    push_str(&mut out, n.as_str());
                    push_str(&mut out, "\n");
                },
                None => {},
            }
            match &choice.warning {
                Some(w) => {
                    push_str(&mut out, w.as_str());
                    push_str(&mut out, "\n");
                },
                None => {},
            }
            return out;
        }
        push_str(&mut out, "):\n");
        let ghost head = out@;
        let mut i: usize = 0;
        while i < urls.len()
            invariant
                0 <= i <= urls@.len(),
                out@ == head + url_lines(urls.deep_view().take(i as int)),
            decreases urls@.len() - i,
        {
            push_str(&mut out, "- ");
            push_str(&mut out, urls[i].as_str());
            push_str(&mut out, "\n");
            let ghost next = urls.deep_view().take(i + 1 as int);
            assert(next.drop_last() =~= urls.deep_view().take(i as int));
            i = i + 1;
            assert(out@ =~= head + url_lines(urls.deep_view().take(i as int)));
        }
        assert(urls.deep_view().take(urls@.len() as int) =~= urls.deep_view());
        push_notes(&mut out, choice);
        match report {
            Some(x) => {
                push_str(&mut out, x);
                push_str(&mut out, "\n");
            },
            None => {},
        }
        out
    }

    /// Whether downloads go into the directory `save_to` (one file per URL)
    /// rather than to `save_to` itself: it is an existing directory, there
    /// is more than one URL, or it ends with `/`.
    pub fn saves_into_dir(save_to: &str, is_dir: bool, count: usize) -> (r: bool)
        ensures
            r == (is_dir || count > 1 || has_suffix(save_to@, "/"@)),
    {
        is_dir || count > 1 || crate::text::ends_with(save_to, "/")
    }

    /// The file names of downloads into a directory, one per URL.
    pub fn file_names(urls: &Vec<String>) -> (r: Vec<String>)
        ensures
            r@.len() == urls@.len(),
            forall|i: int|
                0 <= i < r@.len() ==> #[trigger] r@[i]@ == derived_filename(
                    urls@[i]@,
                    i as nat,
                    None,
                    "image"@,
                    "png"@,
                ),
    {
        let mut out: Vec<String> = Vec::new();
        let mut i: usize = 0;
        while i < urls.len()
            invariant
                0 <= i <= urls@.len(),
                out@.len() == i,
                forall|k: int|
                    0 <= k < i ==> #[trigger] out@[k]@ == derived_filename(
                        urls@[k]@,
                        k as nat,
                        None,
                        "image"@,
                        "png"@,
                    ),
            decreases urls@.len() - i,
        {
            let name = crate::utils::derive_filename(urls[i].as_str(), i, None, "image", "png");
            out.push(name);
            i = i + 1;
        }
        out
    }

    /// A failure entry of the download report: `{url}: {error}`.
    pub fn download_failure(url: &str, error: &str) -> (r: String)
        ensures
            r@ == url@ + ": "@ + error@,
    {
        crate::text::concat3(url, ": ", error)
    }

    /// The one-line download report: the saved paths, and the failures.
    pub fn save_report(saved: &Vec<String>, errors: &Vec<String>) -> (r: String)
        ensures
            r@ == save_report_text(saved.deep_view(), errors.deep_view()),
    {
        if saved.len() == 0 && errors.len() > 0 {
            let mut out = owned("[download failed: ");
            let e = join_strings(errors, "; ");
            push_str(&mut out, e.as_str());
            push_str(&mut out, "]");
            out
        } else if errors.len() == 0 {
            let s = join_strings(saved, ", ");
            crate::text::concat("Saved to: ", s.as_str())
        } else {
            let mut out = owned("Saved to: ");
            let s = join_strings(saved, ", ");
            push_str(&mut out, s.as_str());
            push_str(&mut out, "; [partial failures: ");
            let e = join_strings(errors, "; ");
            push_str(&mut out, e.as_str());
            push_str(&mut out, "]");
            out
        }
    }
}


/// Whether the local files read for the first `n` image inputs all came
/// back without an error (`files` may be shorter than `n`: a missing entry
/// names no file).
pub open spec fn reads_ok(files: Seq<core::result::Result<Option<Vec<u8>>, String>>, n: int) -> bool {
    forall|j: int| 0 <= j < n && j < files.len() ==> #[trigger] files[j] is Ok
}

/// The contents of the local file read for the `i`-th image input, if any.
pub open spec fn read_at(files: Seq<core::result::Result<Option<Vec<u8>>, String>>, i: int) -> Option<
    Seq<u8>,
> {
    if 0 <= i < files.len() {
        match files[i] {
            Ok(Some(b)) => Some(b@),
            _ => None,
        }
    } else {
        None
    }
}

/// The message of the error when the local file of image input `input`
/// could not be read.
pub open spec fn bad_input_message(input: Seq<char>, error: Seq<char>) -> Seq<char> {
    "invalid image input '"@ + input + "': "@ + error
}

/// The outside step an image generation call asks for next. The caller
/// performs it and hands what came back to the `ImageCall` method named
/// beside each variant.
#[derive(Debug)]
pub enum ImageAction {
    /// Send this chat request (prompt enhancement): `enhanced`.
    Enhance(ChatRequest),
    /// Read the local file that each of these image inputs names, where it
    /// names one, stopping at the first error: `read`.
    Read(Vec<String>),
    /// Send this image generation request: `generated`.
    Generate(JsonValue),
    /// Download these image URLs to the target path: `saved`.
    Save(Vec<String>, String),
    /// Answer the call.
    Reply(core::result::Result<String, ToolError>),
}

/// An image generation call between its outside steps.
pub struct ImageCall {
    /// The validated arguments.
    pub params: GenerateImageToolParams,
    /// The image model.
    pub model: String,
    /// The prompt the request carries, with its notes.
    pub choice: PromptChoice,
    /// The reference images as sent.
    pub images: Vec<String>,
    /// The image URLs of the response.
    pub urls: Vec<String>,
    /// The response as pretty JSON text.
    pub raw: String,
}

impl ImageCall {
    /// Begin a call: refuse a size that does not match [`crate::utils::SIZE_PATTERN`];
    /// else ask for the enhanced prompt when wanted (with the chat model
    /// `text_model`), or read the local image inputs.
    pub fn start(params: GenerateImageToolParams, image_model: &str, text_model: &str) -> (r: (
        ImageCall,
        ImageAction,
    ))
        ensures
            r.0.params == params,
            r.0.model@ == image_model@,
            is_choice(r.0.choice, params.prompt@, None),
            if !size_shaped(params.size@) {
                r.1 matches ImageAction::Reply(Err(e)) && e.is_invalid(
                    TOOL_GENERATE_IMAGE@,
                    size_refusal(params.size@),
                )
            } else if params.enhance_prompt {
                r.1 matches ImageAction::Enhance(q) && is_enhance_request(
                    q,
                    params.prompt@,
                    PromptTarget::Image,
                    text_model@,
                )
            } else {
                r.1 matches ImageAction::Read(v) && v.deep_view() == inputs_of(
                    params.image_urls,
                ).map_values(|x: String| x@)
            },
    {
        let action = match GenerateImageTool::validate(&params) {
            Err(e) => ImageAction::Reply(Err(e)),
            Ok(()) => if params.enhance_prompt {
                ImageAction::Enhance(
                    enhance_request(params.prompt.as_str(), PromptTarget::Image, text_model),
                )
            } else {
                ImageAction::Read(input_list(&params.image_urls))
            },
        };
        let choice = choose_prompt(params.prompt.as_str(), None);
        let call = ImageCall {
            params,
            model: owned(image_model),
            choice,
            images: Vec::new(),
            urls: Vec::new(),
            raw: owned(""),
        };
        (call, action)
    }

    /// The enhancement request was answered with `reply`: keep the prompt
    /// it leads to, and read the local image inputs.
    pub fn enhanced(&mut self, reply: core::result::Result<JsonValue, Error>) -> (r: ImageAction)
        ensures
            final(self).params == old(self).params,
            final(self).model == old(self).model,
            final(self).images == old(self).images,
            final(self).urls == old(self).urls,
            final(self).raw == old(self).raw,
            is_choice(
                final(self).choice,
                old(self).params.prompt@,
                Some(enhancement_outcome(reply)),
            ),
            r matches ImageAction::Read(v) && v.deep_view() == inputs_of(
                old(self).params.image_urls,
            ).map_values(|x: String| x@),
    {
        self.choice = choose_enhanced(self.params.prompt.as_str(), reply);
        ImageAction::Read(input_list(&self.params.image_urls))
    }

    /// The local files were read (`files[i]` for input `i`): refuse the
    /// first input whose file could not be read; else send the request with
    /// the resolved reference images.
    pub fn read(&mut self, files: Vec<core::result::Result<Option<Vec<u8>>, String>>) -> (r:
        ImageAction)
        ensures
            final(self).params == old(self).params,
            final(self).model == old(self).model,
            final(self).choice == old(self).choice,
            final(self).urls == old(self).urls,
            final(self).raw == old(self).raw,
            ({
                let inputs = inputs_of(old(self).params.image_urls);
                if reads_ok(files@, inputs.len() as int) {
                    &&& final(self).images@.len() == inputs.len()
                    &&& forall|i: int|
                        0 <= i < inputs.len() ==> #[trigger] final(self).images@[i]@
                            == resolved_image(inputs[i]@, read_at(files@, i))
                    &&& r matches ImageAction::Generate(b) && b@ == image_body(
                        old(self).model@,
                        old(self).choice.effective@,
                        old(self).params.size@,
                        final(self).images.deep_view(),
                    )
                } else {
                    &&& final(self).images == old(self).images
                    &&& r matches ImageAction::Reply(Err(e)) && exists|i: int|
                        #![trigger files@[i]]
                        {
                            &&& 0 <= i < inputs.len()
                            &&& i < files@.len()
                            &&& reads_ok(files@, i)
                            &&& files@[i] matches Err(m) && e.is_invalid(
                                TOOL_GENERATE_IMAGE@,
                                bad_input_message(inputs[i]@, m@),
                            )
                        }
                }
            }),
    {
        let empty: Vec<String> = Vec::new();
        let inputs = match &self.params.image_urls {
            Some(v) => v,
            None => &empty,
        };
        assert(inputs@ == inputs_of(self.params.image_urls));
        let mut images: Vec<String> = Vec::new();
        let mut i: usize = 0;
        while i < inputs.len()
            invariant
                0 <= i <= inputs@.len(),
                inputs@ == inputs_of(old(self).params.image_urls),
                *self == *old(self),
                images@.len() == i,
                reads_ok(files@, i as int),
                forall|k: int|
                    0 <= k < i ==> #[trigger] images@[k]@ == resolved_image(
                        inputs@[k]@,
                        read_at(files@, k),
                    ),
            decreases inputs@.len() - i,
        {
            let file: Option<&Vec<u8>> = if i < files.len() {
                match &files[i] {
                    Ok(Some(b)) => Some(b),
                    Ok(None) => None,
                    Err(m) => {
                        let mut msg = owned("invalid image input '");
                        push_str(&mut msg, inputs[i].as_str());
                        push_str(&mut msg, "': ");
                        push_str(&mut msg, m.as_str());
                        proof {
                            assert(files@[i as int] is Err);
                            assert(!reads_ok(files@, inputs@.len() as int));
                        }
                        return ImageAction::Reply(Err(ToolError::invalid(TOOL_GENERATE_IMAGE, msg)));
                    },
                }
            } else {
                None
            };
            let x = crate::utils::resolve_image_input(inputs[i].as_str(), file);
            images.push(x);
            i = i + 1;
        }
        let body = GenerateImageTool::build_body(
            self.model.as_str(),
            self.choice.effective.as_str(),
            self.params.size.as_str(),
            &images,
        );
        self.images = images;
        ImageAction::Generate(body)
    }

    /// The generation request ended with `outcome`: the response and its
    /// pretty JSON text. Download the URLs it holds when a target is given;
    /// else report them; fail on an error.
    pub fn generated(&mut self, outcome: core::result::Result<(JsonValue, String), Error>) -> (r:
        ImageAction)
        ensures
            final(self).params == old(self).params,
            final(self).model == old(self).model,
            final(self).choice == old(self).choice,
            final(self).images == old(self).images,
            match outcome {
                Err(e) => r matches ImageAction::Reply(Err(x)) && x.is_failed(
                    "Agnes image generation failed: "@ + e.text(),
                ),
                Ok((response, raw)) => {
                    &&& final(self).urls.deep_view() == urls_of(response)
                    &&& final(self).raw@ == raw@
                    &&& match old(self).params.save_to {
                        Some(d) if urls_of(response).len() > 0 => r matches ImageAction::Save(
                            u,
                            t,
                        ) && u.deep_view() == urls_of(response) && t@ == d@,
                        _ => r matches ImageAction::Reply(Ok(t)) && t@ == image_output(
                            urls_of(response),
                            raw@,
                            old(self).images@.len() > 0,
                            old(self).choice,
                            None,
                        ),
                    }
                },
            },
    {
        match outcome {
            Err(e) => ImageAction::Reply(Err(ToolError::failed("Agnes image generation failed: ", &e))),
            Ok((response, raw)) => {
                let urls = collect_urls(&response);
                self.urls = urls;
                self.raw = raw;
                match &self.params.save_to {
                    Some(d) => if self.urls.len() > 0 {
                        return ImageAction::Save(copy_strings(&self.urls), owned(d.as_str()));
                    },
                    None => {},
                }
                let text = GenerateImageTool::output(
                    &self.urls,
                    self.raw.as_str(),
                    self.images.len() > 0,
                    &self.choice,
                    None,
                );
                ImageAction::Reply(Ok(text))
            },
        }
    }

    /// The downloads ended with the one-line `report`: report the URLs,
    /// the notes and the downloads.
    pub fn saved(&self, report: &str) -> (r: ImageAction)
        ensures
            r matches ImageAction::Reply(Ok(t)) && t@ == image_output(
                self.urls.deep_view(),
                self.raw@,
                self.images@.len() > 0,
                self.choice,
                Some(report@),
            ),
    {
        ImageAction::Reply(
            Ok(GenerateImageTool::output(
                &self.urls,
                self.raw.as_str(),
                self.images.len() > 0,
                &self.choice,
                Some(report),
            )),
        )
    }
}

/// The image inputs of a call, as a list.
fn input_list(image_urls: &Option<Vec<String>>) -> (r: Vec<String>)
    ensures
        r.deep_view() == inputs_of(*image_urls).map_values(|x: String| x@),
{
    match image_urls {
        Some(v) => {
            let r = copy_strings(v);
            assert(v@.map_values(|x: String| x@) =~= v.deep_view());
            r
        },
        None => {
            let r: Vec<String> = Vec::new();
            assert(r.deep_view() =~= inputs_of(*image_urls).map_values(|x: String| x@));
            r
        },
    }
}


/// Downloads of generated images into a target path, one URL after
/// another: into the directory under a file name per URL, or to the path
/// itself; the saved paths and the failures are gathered for the report.
pub struct ImageSaves {
    urls: Vec<String>,
    names: Vec<String>,
    into_dir: bool,
    saved: Vec<String>,
    errors: Vec<String>,
}

/// The next step of a run of image downloads.
#[derive(Debug)]
pub enum SaveStep {
    /// Download this URL: into the target directory under the given file
    /// name, or to the target path itself when none is given. Hand the
    /// outcome to `ImageSaves::downloaded`.
    Download(String, Option<String>),
    /// The downloads are over: the one-line report.
    Done(String),
}

impl ImageSaves {
    #[verifier::type_invariant]
    spec fn inv(self) -> bool {
        &&& self.names@.len() == self.urls@.len()
        &&& self.saved@.len() + self.errors@.len() <= self.urls@.len()
    }

    /// The URLs to download.
    pub closed spec fn url_list(self) -> Seq<Seq<char>> {
        self.urls.deep_view()
    }

    /// The file names of the downloads into a directory.
    pub closed spec fn name_list(self) -> Seq<Seq<char>> {
        self.names.deep_view()
    }

    /// Whether the downloads go into the target directory.
    pub closed spec fn goes_into_dir(self) -> bool {
        self.into_dir
    }

    /// The paths saved so far.
    pub closed spec fn saved_list(self) -> Seq<Seq<char>> {
        self.saved.deep_view()
    }

    /// The failures so far, as `url: error`.
    pub closed spec fn error_list(self) -> Seq<Seq<char>> {
        self.errors.deep_view()
    }

    /// How many downloads have ended.
    pub open spec fn done_count(self) -> int {
        (self.saved_list().len() + self.error_list().len()) as int
    }

    /// Whether `step` is what comes next: the next URL while some are
    /// left, else the report.
    pub open spec fn is_next(self, step: SaveStep) -> bool {
        let i = self.done_count();
        if i < self.url_list().len() {
            step matches SaveStep::Download(u, n) && u@ == self.url_list()[i] && if self.goes_into_dir() {
                n matches Some(x) && x@ == self.name_list()[i]
            } else {
                n is None
            }
        } else {
            step matches SaveStep::Done(t) && t@ == save_report_text(self.saved_list(), self.error_list())
        }
    }

    /// Begin downloading `urls` to `save_to` (`is_dir`: it is an existing
    /// directory): into the directory when it is one, when there are
    /// several URLs, or when it ends with `/`.
    pub fn start(urls: Vec<String>, save_to: &str, is_dir: bool) -> (r: (ImageSaves, SaveStep))
        ensures
            r.0.url_list() == urls.deep_view(),
            r.0.goes_into_dir() == (is_dir || urls@.len() > 1 || has_suffix(save_to@, "/"@)),
            r.0.name_list().len() == urls@.len(),
            forall|i: int|
                0 <= i < urls@.len() ==> #[trigger] r.0.name_list()[i] == derived_filename(
                    urls@[i]@,
                    i as nat,
                    None,
                    "image"@,
                    "png"@,
                ),
            r.0.saved_list().len() == 0,
            r.0.error_list().len() == 0,
            r.0.is_next(r.1),
    {
        let into_dir = GenerateImageTool::saves_into_dir(save_to, is_dir, urls.len());
        let names = GenerateImageTool::file_names(&urls);
        let run = ImageSaves { urls, names, into_dir, saved: Vec::new(), errors: Vec::new() };
        assert forall|i: int| 0 <= i < run.urls@.len() implies #[trigger] run.names.deep_view()[i]
            == derived_filename(run.urls@[i]@, i as nat, None, "image"@, "png"@) by {
            assert(run.names.deep_view()[i] == run.names@[i]@);
        }
        let step = run.next_step();
        (run, step)
    }

    /// The download in flight ended with `outcome` (the saved path, or the
    /// error's text): record it, then name the next step.
    pub fn downloaded(&mut self, outcome: core::result::Result<String, String>) -> (r: SaveStep)
        ensures
            final(self).url_list() == old(self).url_list(),
            final(self).name_list() == old(self).name_list(),
            final(self).goes_into_dir() == old(self).goes_into_dir(),
            old(self).done_count() < old(self).url_list().len() ==> match outcome {
                Ok(p) => {
                    &&& final(self).saved_list() == old(self).saved_list().push(p@)
                    &&& final(self).error_list() == old(self).error_list()
                },
                Err(e) => {
                    &&& final(self).saved_list() == old(self).saved_list()
                    &&& final(self).error_list() == old(self).error_list().push(
                        old(self).url_list()[old(self).done_count()] + ": "@ + e@,
                    )
                },
            },
            old(self).done_count() >= old(self).url_list().len() ==> {
                &&& final(self).saved_list() == old(self).saved_list()
                &&& final(self).error_list() == old(self).error_list()
            },
            final(self).is_next(r),
    {
        proof {
            use_type_invariant(&*self);
        }
        let n = self.urls.len();
        let i = self.saved.len() + self.errors.len();
        if i < n {
            match outcome {
                Ok(p) => {
                    let mut saved: Vec<String> = Vec::new();
                    std::mem::swap(&mut saved, &mut self.saved);
                    let ghost before = saved@.len();
                    push_string(&mut saved, p);
                    assert(saved@.len() == saved.deep_view().len());
                    assert(saved@.len() == before + 1);
                    self.saved = saved;
                },
                Err(e) => {
                    let f = GenerateImageTool::download_failure(self.urls[i].as_str(), e.as_str());
                    let mut errors: Vec<String> = Vec::new();
                    std::mem::swap(&mut errors, &mut self.errors);
                    let ghost before = errors@.len();
                    push_string(&mut errors, f);
                    assert(errors@.len() == errors.deep_view().len());
                    assert(errors@.len() == before + 1);
                    self.errors = errors;
                },
            }
        }
        self.next_step()
    }

    fn next_step(&self) -> (r: SaveStep)
        ensures
            self.is_next(r),
    {
        proof {
            use_type_invariant(self);
        }
        let n = self.urls.len();
        let i = self.saved.len() + self.errors.len();
        if i < n {
            let name = if self.into_dir {
                Some(owned(self.names[i].as_str()))
            } else {
                None
            };
            SaveStep::Download(owned(self.urls[i].as_str()), name)
        } else {
            SaveStep::Done(GenerateImageTool::save_report(&self.saved, &self.errors))
        }
    }
}

} // verus!
