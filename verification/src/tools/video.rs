//! Video generation and video task status: the request body, the
//! polling decisions, and the text a call returns.

use vstd::prelude::*;

use crate::error::Error;
use crate::json::{get_str, str_array, Json, JsonValue};
use crate::text::{concat, concat3, decimal, owned, push_str, signed_decimal, str_eq};
use crate::tools::agnes_client::{
    extract_task_id, extract_task_status, extract_video_url, status_label, task_id_of,
    task_status_of, video_url_of, ChatRequest, TaskStatus,
};
use crate::tools::prompt::{enhance_request, is_enhance_request, PromptTarget};
use crate::tools::image::notes;
use crate::tools::{
    choose_enhanced, choose_prompt, enhance_warning, enhancement_outcome, is_choice, PromptChoice,
    ToolError, TOOL_GENERATE_VIDEO,
};
use crate::utils::{derived_filename, frames_ok};

verus! {

/// Parameters of a video generation call.
///
/// `frame_rate` holds the text of its JSON number literal.
#[derive(Debug, Clone)]
pub struct GenerateVideoToolParams {
    /// Video description.
    pub prompt: String,
    /// Input image URL(s): one for image-to-video, several for multi-image
    /// or keyframe animation.
    pub image_urls: Option<Vec<String>>,
    /// Generation mode: "ti2vid", "keyframes", or "multi-image".
    pub mode: Option<String>,
    /// Output width in pixels. Defaults to 1152.
    pub width: u64,
    /// Output height in pixels. Defaults to 768.
    pub height: u64,
    /// Number of frames: at most 441 and of the form 8n+1. Defaults to 121.
    pub num_frames: i64,
    /// Frame rate (1–60). Defaults to 24.
    pub frame_rate: String,
    /// Optional negative prompt (what to avoid).
    pub negative_prompt: Option<String>,
    /// Optional seed for reproducible results.
    pub seed: Option<i64>,
    /// Optional number of inference steps.
    pub num_inference_steps: Option<i64>,
    /// Whether to poll until the task completes.
    pub wait: bool,
    /// Whether to expand the prompt before creating the task.
    pub enhance_prompt: bool,
    /// Optional local path to download the video to once it is complete.
    pub save_to: Option<String>,
}

/// The default width.
pub fn default_width() -> (r: u64)
    ensures
        r == 1152,
{
    1152
}

/// The default height.
pub fn default_height() -> (r: u64)
    ensures
        r == 768,
{
    768
}

/// The default frame count.
pub fn default_num_frames() -> (r: i64)
    ensures
        r == 121,
{
    121
}

/// The default frame rate, as a JSON number literal.
pub fn default_frame_rate() -> (r: String)
    ensures
        r@ == "24.0"@,
{
    owned("24.0")
}

/// The video generation tool.
pub struct GenerateVideoTool;

/// Parameters of a video status call.
#[derive(Debug, Clone)]
pub struct VideoStatusToolParams {
    /// The video task id returned by video generation.
    pub task_id: String,
    /// Whether to poll until the task completes, fails, or times out.
    pub wait: bool,
    /// Optional local path to download the video to once it is complete.
    pub save_to: Option<String>,
}

/// The video status tool.
pub struct VideoStatusTool;

/// Whether a generation mode is accepted.
pub open spec fn mode_ok(m: Seq<char>) -> bool {
    m == "ti2vid"@ || m == "keyframes"@ || m == "multi-image"@
}

/// The message of the error for a mode that is not accepted.
pub open spec fn bad_mode_message(m: Seq<char>) -> Seq<char> {
    "invalid mode '"@ + m + "'. Expected one of: ti2vid, keyframes, multi-image"@
}

/// Why the arguments of a video generation call are refused, if they are:
/// first the frame count, then the mode.
pub open spec fn video_refusal(p: GenerateVideoToolParams) -> Option<Seq<char>> {
    if !frames_ok(p.num_frames as int) {
        Some("configuration error: "@ + crate::utils::bad_frames_message(p.num_frames as int))
    } else {
        match p.mode {
            Some(m) => if mode_ok(m@) {
                None
            } else {
                Some(bad_mode_message(m@))
            },
            None => None,
        }
    }
}

/// The optional text of an optional string.
pub open spec fn opt_view(o: Option<String>) -> Option<Seq<char>> {
    match o {
        Some(s) => Some(s@),
        None => None,
    }
}

/// The image URLs of a call, none when not given.
pub open spec fn urls_of(p: GenerateVideoToolParams) -> Seq<Seq<char>> {
    match p.image_urls {
        Some(v) => v.deep_view(),
        None => Seq::<Seq<char>>::empty(),
    }
}

/// Whether the mode asks for several images (keyframes or multi-image).
pub open spec fn multi_mode(mode: Option<Seq<char>>) -> bool {
    mode == Some("keyframes"@) || mode == Some("multi-image"@)
}

/// The body of a video generation request: model, prompt, size, frames and
/// frame rate; the optional negative prompt, seed and step count; a single
/// image as `image`, or several (or any for keyframes and multi-image) in
/// the extra body with the keyframes mode; and any other mode as `mode`.
pub open spec fn video_body(p: GenerateVideoToolParams, model: Seq<char>, prompt: Seq<char>) -> Json {
    let e0 = seq![
        ("model"@, Json::Str(model)),
        ("prompt"@, Json::Str(prompt)),
        ("width"@, Json::Num(decimal(p.width as nat))),
        ("height"@, Json::Num(decimal(p.height as nat))),
        ("num_frames"@, Json::Num(signed_decimal(p.num_frames as int))),
        ("frame_rate"@, Json::Num(p.frame_rate@)),
    ];
    let e1 = match p.negative_prompt {
        Some(n) => e0.push(("negative_prompt"@, Json::Str(n@))),
        None => e0,
    };
    let e2 = match p.seed {
        Some(s) => e1.push(("seed"@, Json::Num(signed_decimal(s as int)))),
        None => e1,
    };
    let e3 = match p.num_inference_steps {
        Some(s) => e2.push(("num_inference_steps"@, Json::Num(signed_decimal(s as int)))),
        None => e2,
    };
    let urls = urls_of(p);
    let mode = opt_view(p.mode);
    let e4 = if urls.len() == 1 && !multi_mode(mode) {
        e3.push(("image"@, Json::Str(urls[0])))
    } else if urls.len() > 0 {
        let extra = if mode == Some("keyframes"@) {
            seq![("image"@, str_array(urls)), ("mode"@, Json::Str("keyframes"@))]
        } else {
            seq![("image"@, str_array(urls))]
        };
        e3.push(("extra_body"@, Json::Obj(extra)))
    } else {
        e3
    };
    let e5 = match mode {
        Some(m) => if multi_mode(mode) {
            e4
        } else {
            e4.push(("mode"@, Json::Str(m)))
        },
        None => e4,
    };
    Json::Obj(e5)
}

/// The label of a generation in its report.
pub open spec fn mode_label(mode: Option<Seq<char>>, image_count: nat) -> Seq<char> {
    match mode {
        Some(m) => m,
        None => if image_count == 1 {
            "image-to-video"@
        } else if image_count > 1 {
            "multi-image"@
        } else {
            "text-to-video"@
        },
    }
}

/// Lines appended after a task report in one line each: the enhanced
/// prompt (after a newline) and the warning (after a newline).
pub open spec fn trailing_notes(choice: PromptChoice) -> Seq<char> {
    (match choice.enhanced_note {
        Some(n) => "\nEnhanced prompt: "@ + n@,
        None => Seq::<char>::empty(),
    }) + match choice.warning {
        Some(w) => "\n"@ + w@,
        None => Seq::<char>::empty(),
    }
}

/// The report of a created task when the call does not wait.
pub open spec fn created_text(label: Seq<char>, task_id: Seq<char>, choice: PromptChoice) -> Seq<char> {
    "Video task created ("@ + label + ").\nTask ID: "@ + task_id
        + "\n\nUse the `agnes_video_status`"@
        + " tool with this"@
        + " task id (and wait=true to poll) to retrieve the result."@
        + trailing_notes(choice)
}

/// The report when the creation response holds no task id; `raw` is the
/// response rendered as JSON text.
pub open spec fn no_task_text(raw: Seq<char>, choice: PromptChoice) -> Seq<char> {
    "Video task submitted, but no task id was found in the response.\n\n"@ + raw
        + trailing_notes(choice)
}

/// The summary of a video task: status, URL, progress and duration, one
/// line each where known. `progress` and `seconds` are the rendered numbers.
pub open spec fn task_summary(
    task_id: Seq<char>,
    status: TaskStatus,
    video_url: Option<Seq<char>>,
    progress: Option<Seq<char>>,
    seconds: Option<Seq<char>>,
) -> Seq<char> {
    "Task "@ + task_id + ": "@ + status_label(status) + "\n"@ + (match video_url {
        Some(u) => "Video URL: "@ + u + "\n"@,
        None => Seq::<char>::empty(),
    }) + (match progress {
        Some(p) => "Progress: "@ + p + "\n"@,
        None => Seq::<char>::empty(),
    }) + match seconds {
        Some(s) => "Duration: "@ + s + "s\n"@,
        None => Seq::<char>::empty(),
    }
}

/// What a poll of a video task leads to.
#[derive(Debug, Clone)]
pub enum PollStep {
    /// The task completed: the response is the result.
    Finished,
    /// The task failed, or the deadline passed: the poll ends with the error.
    Stop(Error),
    /// The task is still running: wait and poll again.
    Continue,
}

/// The raw status of a failed task as its error reports it: the top-level
/// `status` string, or `failed`.
pub open spec fn failed_status_text(r: JsonValue) -> Seq<char> {
    match get_str(r, "status"@) {
        Some(s) => s,
        None => "failed"@,
    }
}

/// Whether `s` is what the poll does with `response`: finished on a
/// completed task; stopped with an API error on a failed one (quoting its
/// raw status) or once `now` reaches `deadline`; else continued.
pub open spec fn is_poll_step(s: PollStep, task_id: Seq<char>, response: JsonValue, now: u64, deadline: u64) -> bool {
    match task_status_of(response) {
        TaskStatus::Done => s is Finished,
        TaskStatus::Failed => s matches PollStep::Stop(e) && e.is_api_with(
            "video task "@ + task_id + " failed with status '"@ + failed_status_text(response) + "'"@,
        ),
        _ => if now >= deadline {
            s matches PollStep::Stop(e) && e.is_api_with("timed out waiting for video task "@ + task_id)
        } else {
            s is Continue
        },
    }
}

/// Decide the next step of polling task `task_id` from a status response
/// received at time `now`; the poll gives up at `deadline`.
pub fn poll_step(task_id: &str, response: &JsonValue, now: u64, deadline: u64) -> (r: PollStep)
    ensures
        is_poll_step(r, task_id@, *response, now, deadline),
{
    match extract_task_status(response) {
        TaskStatus::Done => PollStep::Finished,
        TaskStatus::Failed => {
            let raw = match response.get_str("status") {
                Some(s) => s,
                None => "failed",
            };
            let mut m = owned("video task ");
            push_str(&mut m, task_id);
            push_str(&mut m, " failed with status '");
            push_str(&mut m, raw);
            push_str(&mut m, "'");
            PollStep::Stop(Error::api(m))
        },
        _ => if now >= deadline {
            PollStep::Stop(Error::api(concat("timed out waiting for video task ", task_id)))
        } else {
            PollStep::Continue
        },
    }
}

fn push_trailing_notes(out: &mut String, choice: &PromptChoice)
    ensures
        final(out)@ == old(out)@ + trailing_notes(*choice),
{
    let ghost before = out@;
    match &choice.enhanced_note {
        Some(n) => {
            push_str(out, "\nEnhanced prompt: ");
            push_str(out, n.as_str());
        },
        None => {},
    }
    match &choice.warning {
        Some(w) => {
            push_str(out, "\n");
            push_str(out, w.as_str());
        },
        None => {},
    }
    assert(out@ =~= before + trailing_notes(*choice));
}

fn push_number_entry(es: &mut Vec<(String, JsonValue)>, key: &str, n: i64)
    ensures
        crate::json::entries_view(final(es)@) == crate::json::entries_view(old(es)@).push(
            (key@, Json::Num(signed_decimal(n as int))),
        ),
{
    crate::json::push_entry(es, key, crate::json::number_i64(n));
}

impl GenerateVideoTool {
    /// Check the arguments of a call: the frame count, then the mode.
    pub fn validate(params: &GenerateVideoToolParams) -> (r: core::result::Result<(), ToolError>)
        ensures
            match video_refusal(*params) {
                Some(m) => r matches Err(e) && e.is_invalid(TOOL_GENERATE_VIDEO@, m),
                None => r is Ok,
            },
    {
        match crate::utils::validate_num_frames(params.num_frames) {
            Ok(()) => {},
            Err(e) => return Err(ToolError::invalid(TOOL_GENERATE_VIDEO, e.message())),
        }
        match &params.mode {
            Some(m) => {
                let s = m.as_str();
                if !(str_eq(s, "ti2vid") || str_eq(s, "keyframes") || str_eq(s, "multi-image")) {
                    return Err(
                        ToolError::invalid(
                            TOOL_GENERATE_VIDEO,
                            concat3(
                                "invalid mode '",
                                s,
                                "'. Expected one of: ti2vid, keyframes, multi-image",
                            ),
                        ),
                    );
                }
            },
            None => {},
        }
        Ok(())
    }

    /// Build the request body from validated parameters.
    pub fn build_body(params: &GenerateVideoToolParams, video_model: &str, prompt: &str) -> (r:
        JsonValue)
        ensures
            r@ == video_body(*params, video_model@, prompt@),
    {
        proof {
            reveal_strlit("keyframes");
            reveal_strlit("multi-image");
            assert("keyframes"@[0] != "multi-image"@[0]);
        }
        let mut es = crate::json::no_entries();
        crate::json::push_entry(&mut es, "model", crate::json::string_value(video_model));
        crate::json::push_entry(&mut es, "prompt", crate::json::string_value(prompt));
        crate::json::push_entry(&mut es, "width", crate::json::number_u64(params.width));
        crate::json::push_entry(&mut es, "height", crate::json::number_u64(params.height));
        push_number_entry(&mut es, "num_frames", params.num_frames);
        crate::json::push_entry(
            &mut es,
            "frame_rate",
            JsonValue::Number(owned(params.frame_rate.as_str())),
        );
        let ghost e0 = crate::json::entries_view(es@);
        assert(e0 =~= seq![
            ("model"@, Json::Str(video_model@)),
            ("prompt"@, Json::Str(prompt@)),
            ("width"@, Json::Num(decimal(params.width as nat))),
            ("height"@, Json::Num(decimal(params.height as nat))),
            ("num_frames"@, Json::Num(signed_decimal(params.num_frames as int))),
            ("frame_rate"@, Json::Num(params.frame_rate@)),
        ]);
        match &params.negative_prompt {
            Some(n) => crate::json::push_entry(&mut es, "negative_prompt", crate::json::string_value(n.as_str())),
            None => {},
        }
        match params.seed {
            Some(s) => push_number_entry(&mut es, "seed", s),
            None => {},
        }
        match params.num_inference_steps {
            Some(s) => push_number_entry(&mut es, "num_inference_steps", s),
            None => {},
        }
        let empty: Vec<String> = Vec::new();
        let urls = match &params.image_urls {
            Some(v) => v,
            None => &empty,
        };
        assert(urls.deep_view() == urls_of(*params)) by {
            if params.image_urls is None {
                assert(empty.deep_view() =~= Seq::<Seq<char>>::empty());
            }
        }
        let (is_keyframes, is_multi) = match &params.mode {
            Some(m) => (str_eq(m.as_str(), "keyframes"), str_eq(m.as_str(), "multi-image")),
            None => (false, false),
        };
        assert((is_keyframes || is_multi) == multi_mode(opt_view(params.mode)));
        assert(is_keyframes == (opt_view(params.mode) == Some("keyframes"@)));
        if urls.len() == 1 && !(is_keyframes || is_multi) {
            crate::json::push_entry(&mut es, "image", crate::json::string_value(urls[0].as_str()));
        } else if urls.len() > 0 {
            let mut extra = crate::json::no_entries();
            let arr = crate::json::string_array(urls);
            assert(urls@.map_values(|x: String| x@) =~= urls.deep_view());
            crate::json::push_entry(&mut extra, "image", arr);
            if is_keyframes {
                crate::json::push_entry(&mut extra, "mode", crate::json::string_value("keyframes"));
            }
            let ghost xv = crate::json::entries_view(extra@);
            assert(xv =~= if opt_view(params.mode) == Some("keyframes"@) {
                seq![("image"@, str_array(urls.deep_view())), ("mode"@, Json::Str("keyframes"@))]
            } else {
                seq![("image"@, str_array(urls.deep_view()))]
            });
            crate::json::push_entry(&mut es, "extra_body", JsonValue::Object(extra));
        }
        match &params.mode {
            Some(m) => {
                if !(is_keyframes || is_multi) {
                    crate::json::push_entry(&mut es, "mode", crate::json::string_value(m.as_str()));
                }
            },
            None => {},
        }
        JsonValue::Object(es)
    }

    /// The label of a generation in its report: the mode when given, else
    /// from the number of images.
    pub fn mode_label(mode: Option<&str>, image_count: usize) -> (r: String)
        ensures
            r@ == mode_label(
                match mode {
                    Some(m) => Some(m@),
                    None => None,
                },
                image_count as nat,
            ),
    {
        match mode {
            Some(m) => owned(m),
            None => if image_count == 1 {
                owned("image-to-video")
            } else if image_count > 1 {
                owned("multi-image")
            } else {
                owned("text-to-video")
            },
        }
    }

    /// The report of a created task when the call does not wait.
    pub fn created_report(label: &str, task_id: &str, choice: &PromptChoice) -> (r: String)
        ensures
            r@ == created_text(label@, task_id@, *choice),
    {
        let mut out = owned("Video task created (");
        push_str(&mut out, label);
        push_str(&mut out, ").\nTask ID: ");
        push_str(&mut out, task_id);
        push_str(&mut out, "\n\nUse the `agnes_video_status`");
        push_str(&mut out, " tool with this");
        push_str(&mut out, " task id (and wait=true to poll) to retrieve the result.");
        push_trailing_notes(&mut out, choice);
        out
    }

    /// The report when the creation response holds no task id.
    pub fn no_task_report(raw: &str, choice: &PromptChoice) -> (r: String)
        ensures
            r@ == no_task_text(raw@, *choice),
    {
        let mut out = owned("Video task submitted, but no task id was found in the response.\n\n");
        push_str(&mut out, raw);
        push_trailing_notes(&mut out, choice);
        out
    }

    /// The report of a finished wait: the task summary, then the notes and
    /// the download report, one line each.
    pub fn finished_report(summary: &str, choice: &PromptChoice, report: Option<&str>) -> (r: String)
        ensures
            r@ == summary@ + notes(*choice) + match report {
                Some(x) => x@ + "\n"@,
                None => Seq::<char>::empty(),
            },
    {
        let mut out = owned(summary);
        let ghost before = out@;
        match &choice.enhanced_note {
            Some(n) => {
                push_str(&mut out, "Enhanced prompt: ");
                push_str(&mut out, n.as_str());
                push_str(&mut out, "\n");
            },
            None => {},
        }
        match &choice.warning {
            Some(w) => {
                push_str(&mut out, w.as_str());
                push_str(&mut out, "\n");
            },
            None => {},
        }
        assert(out@ =~= before + notes(*choice));
        match report {
            Some(x) => {
                push_str(&mut out, x);
                push_str(&mut out, "\n");
            },
            None => {},
        }
        out
    }
}

/// Render a human-readable summary of a video task.
pub fn render_task_result(
    task_id: &str,
    status: TaskStatus,
    video_url: Option<&str>,
    progress: Option<&str>,
    seconds: Option<&str>,
) -> (r: String)
    ensures
        r@ == task_summary(
            task_id@,
            status,
            match video_url {
                Some(u) => Some(u@),
                None => None,
            },
            match progress {
                Some(p) => Some(p@),
                None => None,
            },
            match seconds {
                Some(s) => Some(s@),
                None => None,
            },
        ),
{
    let mut out = owned("Task ");
    push_str(&mut out, task_id);
    push_str(&mut out, ": ");
    push_str(&mut out, status.label());
    push_str(&mut out, "\n");
    match video_url {
        Some(u) => {
            push_str(&mut out, "Video URL: ");
            push_str(&mut out, u);
            push_str(&mut out, "\n");
        },
        None => {},
    }
    match progress {
        Some(p) => {
            push_str(&mut out, "Progress: ");
            push_str(&mut out, p);
            push_str(&mut out, "\n");
        },
        None => {},
    }
    match seconds {
        Some(s) => {
            push_str(&mut out, "Duration: ");
            push_str(&mut out, s);
            push_str(&mut out, "s\n");
        },
        None => {},
    }
    out
}

/// The file name of a video downloaded into a directory.
pub fn video_file_name(url: &str) -> (r: String)
    ensures
        r@ == derived_filename(url@, 0, None, "video"@, "mp4"@),
{
    crate::utils::derive_filename(url, 0, None, "video", "mp4")
}

/// The one-line report of a video download: where it was saved, or why it
/// failed.
pub fn video_save_report(outcome: core::result::Result<&str, &str>) -> (r: String)
    ensures
        r@ == match outcome {
            Ok(path) => "Saved to: "@ + path@,
            Err(e) => "[download failed: "@ + e@ + "]"@,
        },
{
    match outcome {
        Ok(path) => concat("Saved to: ", path),
        Err(e) => concat3("[download failed: ", e, "]"),
    }
}

/// The failure of polling task `task_id`.
pub fn polling_failed(task_id: &str, e: &Error) -> (r: ToolError)
    ensures
        r.is_failed("polling task "@ + task_id@ + " failed: "@ + e.text()),
{
    let context = concat3("polling task ", task_id, " failed: ");
    ToolError::failed(context.as_str(), e)
}

/// The failure of retrieving task `task_id`.
pub fn retrieving_failed(task_id: &str, e: &Error) -> (r: ToolError)
    ensures
        r.is_failed("retrieving task "@ + task_id@ + " failed: "@ + e.text()),
{
    let context = concat3("retrieving task ", task_id, " failed: ");
    ToolError::failed(context.as_str(), e)
}


/// The outside step a video generation call asks for next. The caller
/// performs it and hands what came back to the method named beside each
/// variant.
#[derive(Debug)]
pub enum VideoAction {
    /// Send this chat request (prompt enhancement): `VideoCall::enhanced`.
    Enhance(ChatRequest),
    /// Create a video task with this body: `VideoCall::created`.
    Create(JsonValue),
    /// Pin the task to the key that created it: `VideoCall::pinned`.
    Pin(String, usize),
    /// Poll the task until it ends: `VideoCall::polled`.
    Poll(String),
    /// Download the video URL to the target path: `VideoCall::downloaded`.
    Download(String, String),
    /// Answer the call.
    Reply(core::result::Result<String, ToolError>),
}

/// What a finished task response asks to download: its video URL and the
/// target, when a target is given, the response has a URL, and the task
/// completed.
pub open spec fn download_of(save_to: Option<String>, response: JsonValue) -> Option<
    (Seq<char>, Seq<char>),
> {
    match (save_to, video_url_of(response)) {
        (Some(d), Some(u)) => if task_status_of(response) == TaskStatus::Done {
            Some((u, d@))
        } else {
            None
        },
        _ => None,
    }
}

/// The summary of a task response, with its progress and duration text.
pub open spec fn response_summary(
    task_id: Seq<char>,
    response: JsonValue,
    progress: Option<String>,
    seconds: Option<String>,
) -> Seq<char> {
    task_summary(
        task_id,
        task_status_of(response),
        video_url_of(response),
        opt_view(progress),
        opt_view(seconds),
    )
}

/// The one-line report of a video download: where it was saved, or why it
/// failed.
pub open spec fn save_text(outcome: core::result::Result<String, String>) -> Seq<char> {
    match outcome {
        Ok(path) => "Saved to: "@ + path@,
        Err(e) => "[download failed: "@ + e@ + "]"@,
    }
}

/// The summary of a finished task and the download it asks for.
fn finish_task(
    task_id: &str,
    save_to: &Option<String>,
    response: &JsonValue,
    progress: Option<String>,
    seconds: Option<String>,
) -> (r: (String, Option<(String, String)>))
    ensures
        r.0@ == response_summary(task_id@, *response, progress, seconds),
        match download_of(*save_to, *response) {
            Some((u, d)) => r.1 matches Some((x, y)) && x@ == u && y@ == d,
            None => r.1 is None,
        },
{
    let status = extract_task_status(response);
    let url = extract_video_url(response);
    let p = match &progress {
        Some(x) => Some(x.as_str()),
        None => None,
    };
    let sec = match &seconds {
        Some(x) => Some(x.as_str()),
        None => None,
    };
    let u = match &url {
        Some(x) => Some(x.as_str()),
        None => None,
    };
    let summary = render_task_result(task_id, status, u, p, sec);
    let download = match (save_to, url) {
        (Some(d), Some(x)) => if status == TaskStatus::Done {
            Some((x, owned(d.as_str())))
        } else {
            None
        },
        _ => None,
    };
    (summary, download)
}

/// A video generation call between its outside steps: what the later
/// steps need of the arguments, the prompt choice, the created task and
/// the summary of its result.
pub struct VideoCall {
    /// The validated arguments.
    pub params: GenerateVideoToolParams,
    /// The video model.
    pub model: String,
    /// The prompt the task carries, with its notes.
    pub choice: PromptChoice,
    /// The id of the created task.
    pub task_id: String,
    /// The summary of the finished task.
    pub summary: String,
}

impl VideoCall {
    /// Begin a call: refuse invalid arguments; else ask for the enhanced
    /// prompt when wanted (with the chat model `text_model`), or create the
    /// task with the prompt as given.
    pub fn start(params: GenerateVideoToolParams, video_model: &str, text_model: &str) -> (r: (
        VideoCall,
        VideoAction,
    ))
        ensures
            r.0.params == params,
            r.0.model@ == video_model@,
            is_choice(r.0.choice, params.prompt@, None),
            match video_refusal(params) {
                Some(m) => r.1 matches VideoAction::Reply(Err(e)) && e.is_invalid(
                    TOOL_GENERATE_VIDEO@,
                    m,
                ),
                None => if params.enhance_prompt {
                    r.1 matches VideoAction::Enhance(q) && is_enhance_request(
                        q,
                        params.prompt@,
                        PromptTarget::Video,
                        text_model@,
                    )
                } else {
                    r.1 matches VideoAction::Create(b) && b@ == video_body(
                        params,
                        video_model@,
                        params.prompt@,
                    )
                },
            },
    {
        let action = match GenerateVideoTool::validate(&params) {
            Err(e) => VideoAction::Reply(Err(e)),
            Ok(()) => if params.enhance_prompt {
                VideoAction::Enhance(
                    enhance_request(params.prompt.as_str(), PromptTarget::Video, text_model),
                )
            } else {
                VideoAction::Create(
                    GenerateVideoTool::build_body(&params, video_model, params.prompt.as_str()),
                )
            },
        };
        let choice = choose_prompt(params.prompt.as_str(), None);
        let call = VideoCall {
            params,
            model: owned(video_model),
            choice,
            task_id: owned(""),
            summary: owned(""),
        };
        (call, action)
    }

    /// The enhancement request was answered with `reply`: create the task
    /// with the prompt it leads to.
    pub fn enhanced(&mut self, reply: core::result::Result<JsonValue, Error>) -> (r: VideoAction)
        ensures
            final(self).params == old(self).params,
            final(self).model == old(self).model,
            final(self).task_id == old(self).task_id,
            final(self).summary == old(self).summary,
            is_choice(
                final(self).choice,
                old(self).params.prompt@,
                Some(enhancement_outcome(reply)),
            ),
            r matches VideoAction::Create(b) && b@ == video_body(
                old(self).params,
                old(self).model@,
                final(self).choice.effective@,
            ),
    {
        let choice = choose_enhanced(self.params.prompt.as_str(), reply);
        let body = GenerateVideoTool::build_body(
            &self.params,
            self.model.as_str(),
            choice.effective.as_str(),
        );
        self.choice = choice;
        VideoAction::Create(body)
    }

    /// The creation request ended with `outcome`: the response, the index
    /// of the key that created the task, and the response as pretty JSON
    /// text. Pin the task it names; report a response without a task id;
    /// fail on an error.
    pub fn created(
        &mut self,
        outcome: core::result::Result<(JsonValue, usize, String), Error>,
    ) -> (r: VideoAction)
        ensures
            final(self).params == old(self).params,
            final(self).model == old(self).model,
            final(self).choice == old(self).choice,
            final(self).summary == old(self).summary,
            match outcome {
                Err(e) => {
                    &&& final(self).task_id == old(self).task_id
                    &&& r matches VideoAction::Reply(Err(x)) && x.is_failed(
                        "Agnes video creation failed: "@ + e.text(),
                    )
                },
                Ok((response, key, raw)) => match task_id_of(response) {
                    None => {
                        &&& final(self).task_id == old(self).task_id
                        &&& r matches VideoAction::Reply(Ok(t)) && t@ == no_task_text(
                            raw@,
                            old(self).choice,
                        )
                    },
                    Some(id) => {
                        &&& final(self).task_id@ == id
                        &&& r matches VideoAction::Pin(t, k) && t@ == id && k == key
                    },
                },
            },
    {
        match outcome {
            Err(e) => VideoAction::Reply(Err(ToolError::failed("Agnes video creation failed: ", &e))),
            Ok((response, key, raw)) => match extract_task_id(&response) {
                None => VideoAction::Reply(Ok(GenerateVideoTool::no_task_report(raw.as_str(), &self.choice))),
                Some(id) => {
                    self.task_id = owned(id.as_str());
                    VideoAction::Pin(id, key)
                },
            },
        }
    }

    /// The task is pinned to its key: report it when the call does not
    /// wait, else poll it.
    pub fn pinned(&self) -> (r: VideoAction)
        ensures
            if self.params.wait {
                r matches VideoAction::Poll(t) && t@ == self.task_id@
            } else {
                r matches VideoAction::Reply(Ok(t)) && t@ == created_text(
                    mode_label(opt_view(self.params.mode), urls_of(self.params).len()),
                    self.task_id@,
                    self.choice,
                )
            },
    {
        if self.params.wait {
            VideoAction::Poll(owned(self.task_id.as_str()))
        } else {
            let count = match &self.params.image_urls {
                Some(v) => v.len(),
                None => 0,
            };
            proof {
                if let Some(v) = &self.params.image_urls {
                    assert(v.deep_view().len() == v@.len());
                }
            }
            let mode = match &self.params.mode {
                Some(m) => Some(m.as_str()),
                None => None,
            };
            let label = GenerateVideoTool::mode_label(mode, count);
            VideoAction::Reply(
                Ok(GenerateVideoTool::created_report(label.as_str(), self.task_id.as_str(), &self.choice)),
            )
        }
    }

    /// Polling ended with `outcome`: the final response with its progress
    /// and duration text. Download the video when asked and possible;
    /// else report the task; fail on an error.
    pub fn polled(
        &mut self,
        outcome: core::result::Result<(JsonValue, Option<String>, Option<String>), Error>,
    ) -> (r: VideoAction)
        ensures
            final(self).params == old(self).params,
            final(self).model == old(self).model,
            final(self).choice == old(self).choice,
            final(self).task_id == old(self).task_id,
            match outcome {
                Err(e) => r matches VideoAction::Reply(Err(x)) && x.is_failed(
                    "polling task "@ + old(self).task_id@ + " failed: "@ + e.text(),
                ),
                Ok((response, progress, seconds)) => {
                    &&& final(self).summary@ == response_summary(
                        old(self).task_id@,
                        response,
                        progress,
                        seconds,
                    )
                    &&& match download_of(old(self).params.save_to, response) {
                        Some((u, d)) => r matches VideoAction::Download(x, y) && x@ == u && y@
                            == d,
                        None => r matches VideoAction::Reply(Ok(t)) && t@ == final(self).summary@
                            + notes(old(self).choice),
                    }
                },
            },
    {
        match outcome {
            Err(e) => VideoAction::Reply(Err(polling_failed(self.task_id.as_str(), &e))),
            Ok((response, progress, seconds)) => {
                let (summary, download) = finish_task(
                    self.task_id.as_str(),
                    &self.params.save_to,
                    &response,
                    progress,
                    seconds,
                );
                self.summary = summary;
                match download {
                    Some((u, d)) => VideoAction::Download(u, d),
                    None => VideoAction::Reply(
                        Ok(GenerateVideoTool::finished_report(self.summary.as_str(), &self.choice, None)),
                    ),
                }
            },
        }
    }

    /// The download ended with `outcome` (the saved path or the error's
    /// text): report the task, its notes and the download.
    pub fn downloaded(&self, outcome: core::result::Result<String, String>) -> (r: VideoAction)
        ensures
            r matches VideoAction::Reply(Ok(t)) && t@ == self.summary@ + notes(self.choice)
                + save_text(outcome) + "\n"@,
    {
        let report = match &outcome {
            Ok(p) => video_save_report(Ok(p.as_str())),
            Err(e) => video_save_report(Err(e.as_str())),
        };
        VideoAction::Reply(
            Ok(GenerateVideoTool::finished_report(self.summary.as_str(), &self.choice, Some(report.as_str()))),
        )
    }
}

/// The outside step a video status call asks for next. The caller performs
/// it and hands what came back to the `StatusCall` method named beside each
/// variant.
#[derive(Debug)]
pub enum StatusAction {
    /// Poll the task until it ends: `received`.
    Poll(String),
    /// Retrieve the task's status once: `received`.
    Fetch(String),
    /// Download the video URL to the target path: `downloaded`.
    Download(String, String),
    /// Answer the call.
    Reply(core::result::Result<String, ToolError>),
}

/// A video status call between its outside steps.
pub struct StatusCall {
    /// The arguments.
    pub params: VideoStatusToolParams,
    /// The summary of the task.
    pub summary: String,
}

impl StatusCall {
    /// Begin a call: poll the task when asked to wait, else retrieve its
    /// status once.
    pub fn start(params: VideoStatusToolParams) -> (r: (StatusCall, StatusAction))
        ensures
            r.0.params == params,
            if params.wait {
                r.1 matches StatusAction::Poll(t) && t@ == params.task_id@
            } else {
                r.1 matches StatusAction::Fetch(t) && t@ == params.task_id@
            },
    {
        let id = owned(params.task_id.as_str());
        let action = if params.wait {
            StatusAction::Poll(id)
        } else {
            StatusAction::Fetch(id)
        };
        (StatusCall { params, summary: owned("") }, action)
    }

    /// The poll or retrieval ended with `outcome`: the response with its
    /// progress and duration text. Download the video when asked and
    /// possible; else report the task; fail on an error.
    pub fn received(
        &mut self,
        outcome: core::result::Result<(JsonValue, Option<String>, Option<String>), Error>,
    ) -> (r: StatusAction)
        ensures
            final(self).params == old(self).params,
            match outcome {
                Err(e) => r matches StatusAction::Reply(Err(x)) && x.is_failed(
                    (if old(self).params.wait {
                        "polling task "@
                    } else {
                        "retrieving task "@
                    }) + old(self).params.task_id@ + " failed: "@ + e.text(),
                ),
                Ok((response, progress, seconds)) => {
                    &&& final(self).summary@ == response_summary(
                        old(self).params.task_id@,
                        response,
                        progress,
                        seconds,
                    )
                    &&& match download_of(old(self).params.save_to, response) {
                        Some((u, d)) => r matches StatusAction::Download(x, y) && x@ == u && y@
                            == d,
                        None => r matches StatusAction::Reply(Ok(t)) && t@ == final(self).summary@,
                    }
                },
            },
    {
        match outcome {
            Err(e) => {
                let err = if self.params.wait {
                    polling_failed(self.params.task_id.as_str(), &e)
                } else {
                    retrieving_failed(self.params.task_id.as_str(), &e)
                };
                StatusAction::Reply(Err(err))
            },
            Ok((response, progress, seconds)) => {
                let (summary, download) = finish_task(
                    self.params.task_id.as_str(),
                    &self.params.save_to,
                    &response,
                    progress,
                    seconds,
                );
                self.summary = summary;
                match download {
                    Some((u, d)) => StatusAction::Download(u, d),
                    None => StatusAction::Reply(Ok(owned(self.summary.as_str()))),
                }
            },
        }
    }

    /// The download ended with `outcome` (the saved path or the error's
    /// text): report the task and the download.
    pub fn downloaded(&self, outcome: core::result::Result<String, String>) -> (r: StatusAction)
        ensures
            r matches StatusAction::Reply(Ok(t)) && t@ == self.summary@ + save_text(outcome) + "\n"@,
    {
        let report = match &outcome {
            Ok(p) => video_save_report(Ok(p.as_str())),
            Err(e) => video_save_report(Err(e.as_str())),
        };
        let mut out = owned(self.summary.as_str());
        push_str(&mut out, report.as_str());
        push_str(&mut out, "\n");
        StatusAction::Reply(Ok(out))
    }
}


/// Prompt enhancement falls back: when the enhancement reply yields no
/// prompt (an error, or a reply without text), the generation carries the
/// original prompt and its report carries the warning
/// `[prompt enhancement failed: ...], using original prompt`; when it
/// yields one, the generation carries the enhanced prompt and its report
/// echoes it. Shown for the notes that end the video reports (after a
/// newline) and the image and finished-task reports (one line each).
pub proof fn law_enhancement_fallback(
    original: Seq<char>,
    reply: core::result::Result<JsonValue, Error>,
    c: PromptChoice,
)
    requires
        is_choice(c, original, Some(enhancement_outcome(reply))),
    ensures
        enhancement_outcome(reply) matches Err(m) ==> {
            &&& c.effective@ == original
            &&& trailing_notes(c) == "\n"@ + enhance_warning(m)
            &&& notes(c) == enhance_warning(m) + "\n"@
        },
        enhancement_outcome(reply) matches Ok(e) ==> {
            &&& c.effective@ == e
            &&& trailing_notes(c) == "\nEnhanced prompt: "@ + e
            &&& notes(c) == "Enhanced prompt: "@ + e + "\n"@
        },
{
    match enhancement_outcome(reply) {
        Err(m) => {
            assert(trailing_notes(c) =~= "\n"@ + enhance_warning(m));
            assert(notes(c) =~= enhance_warning(m) + "\n"@);
        },
        Ok(e) => {
            assert(trailing_notes(c) =~= "\nEnhanced prompt: "@ + e);
            assert(notes(c) =~= "Enhanced prompt: "@ + e + "\n"@);
        },
    }
}


/// Every parameter of a call reaches the request body: the model, the
/// prompt, the size, the frame count and the frame rate always; the
/// negative prompt, seed and step count whenever they are given; a single
/// image as `image` unless the mode is keyframes or multi-image; and a mode
/// other than those two as `mode`.
pub proof fn law_video_body_carries_params(p: GenerateVideoToolParams, model: Seq<char>, prompt: Seq<char>)
    ensures
        video_body(p, model, prompt) is Obj,
        ({
            let es = video_body(p, model, prompt)->Obj_0;
            &&& es.contains(("model"@, Json::Str(model)))
            &&& es.contains(("prompt"@, Json::Str(prompt)))
            &&& es.contains(("width"@, Json::Num(decimal(p.width as nat))))
            &&& es.contains(("height"@, Json::Num(decimal(p.height as nat))))
            &&& es.contains(("num_frames"@, Json::Num(signed_decimal(p.num_frames as int))))
            &&& es.contains(("frame_rate"@, Json::Num(p.frame_rate@)))
            &&& (p.negative_prompt is Some ==> es.contains(
                ("negative_prompt"@, Json::Str(p.negative_prompt->0@)),
            ))
            &&& (p.seed is Some ==> es.contains(
                ("seed"@, Json::Num(signed_decimal(p.seed->0 as int))),
            ))
            &&& (p.num_inference_steps is Some ==> es.contains(
                ("num_inference_steps"@, Json::Num(signed_decimal(p.num_inference_steps->0 as int))),
            ))
            &&& (p.image_urls is Some && p.image_urls->0@.len() == 1 && p.mode is None ==> es.contains(
                ("image"@, Json::Str(p.image_urls->0@[0]@)),
            ))
            &&& (p.mode is Some && p.mode->0@ != "keyframes"@ && p.mode->0@ != "multi-image"@
                ==> es.contains(("mode"@, Json::Str(p.mode->0@))))
        }),
{
    let e0 = seq![
        ("model"@, Json::Str(model)),
        ("prompt"@, Json::Str(prompt)),
        ("width"@, Json::Num(decimal(p.width as nat))),
        ("height"@, Json::Num(decimal(p.height as nat))),
        ("num_frames"@, Json::Num(signed_decimal(p.num_frames as int))),
        ("frame_rate"@, Json::Num(p.frame_rate@)),
    ];
    let es = video_body(p, model, prompt)->Obj_0;
    assert(es.len() >= 6);
    assert forall|i: int| 0 <= i < 6 implies es[i] == e0[i] by {}
    assert(es[0] == e0[0] && es[1] == e0[1] && es[2] == e0[2]);
    assert(es[3] == e0[3] && es[4] == e0[4] && es[5] == e0[5]);
    let n1 = if p.negative_prompt is Some { 7int } else { 6int };
    let n2 = if p.seed is Some { n1 + 1 } else { n1 };
    let n3 = if p.num_inference_steps is Some { n2 + 1 } else { n2 };
    if p.negative_prompt is Some {
        assert(es[6] == ("negative_prompt"@, Json::Str(p.negative_prompt->0@)));
    }
    if p.seed is Some {
        assert(es[n1] == ("seed"@, Json::Num(signed_decimal(p.seed->0 as int))));
    }
    if p.num_inference_steps is Some {
        assert(es[n2] == ("num_inference_steps"@, Json::Num(signed_decimal(p.num_inference_steps->0 as int))));
    }
    if p.image_urls is Some && p.image_urls->0@.len() == 1 && p.mode is None {
        assert(urls_of(p)[0] == p.image_urls->0@[0]@);
        assert(es[n3] == ("image"@, Json::Str(p.image_urls->0@[0]@)));
    }
    if p.mode is Some && p.mode->0@ != "keyframes"@ && p.mode->0@ != "multi-image"@ {
        assert(es.last() == ("mode"@, Json::Str(p.mode->0@)));
    }
}

} // verus!
