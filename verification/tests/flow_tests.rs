//! The generation and status calls, driven step by step with the outcomes
//! of their outside work.

use agnes_mcp::error::Error;
use agnes_mcp::json::{to_json_text, JsonValue};
use agnes_mcp::tools::chat::ChatTool;
use agnes_mcp::tools::image::{GenerateImageToolParams, ImageAction, ImageCall, ImageSaves, SaveStep};
use agnes_mcp::tools::image_recognition::ImageRecognitionTool;
use agnes_mcp::tools::prompt::EnhancePromptTool;
use agnes_mcp::tools::video::{
    GenerateVideoToolParams, StatusAction, StatusCall, VideoAction, VideoCall,
    VideoStatusToolParams,
};
use agnes_mcp::tools::ToolError;

fn obj(entries: Vec<(&str, JsonValue)>) -> JsonValue {
    JsonValue::Object(entries.into_iter().map(|(k, v)| (k.to_string(), v)).collect())
}

fn text(s: &str) -> JsonValue {
    JsonValue::Str(s.to_string())
}

fn chat_reply(content: &str) -> JsonValue {
    obj(vec![(
        "choices",
        JsonValue::Array(vec![obj(vec![("message", obj(vec![("content", text(content))]))])]),
    )])
}

fn video(prompt: &str) -> GenerateVideoToolParams {
    GenerateVideoToolParams {
        prompt: prompt.to_string(),
        image_urls: None,
        mode: None,
        width: 1152,
        height: 768,
        num_frames: 121,
        frame_rate: "24.0".to_string(),
        negative_prompt: None,
        seed: None,
        num_inference_steps: None,
        wait: false,
        enhance_prompt: false,
        save_to: None,
    }
}

fn image(prompt: &str, inputs: Option<Vec<&str>>) -> GenerateImageToolParams {
    GenerateImageToolParams {
        prompt: prompt.to_string(),
        size: "1024x768".to_string(),
        image_urls: inputs.map(|v| v.into_iter().map(str::to_string).collect()),
        enhance_prompt: false,
        save_to: None,
    }
}

fn completed(url: &str) -> JsonValue {
    obj(vec![("status", text("completed")), ("video_url", text(url))])
}

#[test]
fn video_call_refuses_bad_frames() {
    let mut p = video("cat");
    p.num_frames = 100;
    let (_call, action) = VideoCall::start(p, "vm", "tm");
    match action {
        VideoAction::Reply(Err(ToolError::InvalidArguments { tool, message })) => {
            assert_eq!(tool, "agnes_generate_video");
            assert_eq!(
                message,
                "configuration error: num_frames must be <= 441 and satisfy 8n + 1 (e.g. 81, 121, 161, 241, 441). Got 100."
            );
        }
        other => panic!("unexpected {other:?}"),
    }
}

#[test]
fn video_call_without_wait_reports_the_created_task() {
    let (mut call, action) = VideoCall::start(video("cat"), "vm", "tm");
    match action {
        VideoAction::Create(body) => {
            assert_eq!(body.get_str("model"), Some("vm"));
            assert_eq!(body.get_str("prompt"), Some("cat"));
        }
        other => panic!("unexpected {other:?}"),
    }
    let response = obj(vec![("id", text("task_7"))]);
    match call.created(Ok((response, 2, "{}".to_string()))) {
        VideoAction::Pin(id, key) => {
            assert_eq!(id, "task_7");
            assert_eq!(key, 2);
        }
        other => panic!("unexpected {other:?}"),
    }
    match call.pinned() {
        VideoAction::Reply(Ok(t)) => assert!(t.starts_with(
            "Video task created (text-to-video).\nTask ID: task_7\n\nUse the `agnes_video_status`"
        )),
        other => panic!("unexpected {other:?}"),
    }
}

#[test]
fn video_call_enhances_then_creates_with_the_enhanced_prompt() {
    let mut p = video("cat");
    p.enhance_prompt = true;
    let (mut call, action) = VideoCall::start(p, "vm", "tm");
    match action {
        VideoAction::Enhance(req) => {
            assert_eq!(req.model, "tm");
            assert_eq!(req.messages.len(), 2);
            assert_eq!(req.max_tokens, Some(512));
        }
        other => panic!("unexpected {other:?}"),
    }
    match call.enhanced(Ok(chat_reply("  a fluffy cat  "))) {
        VideoAction::Create(body) => assert_eq!(body.get_str("prompt"), Some("a fluffy cat")),
        other => panic!("unexpected {other:?}"),
    }
    assert_eq!(call.choice.enhanced_note.as_deref(), Some("a fluffy cat"));
}

#[test]
fn video_call_falls_back_when_enhancement_fails() {
    let mut p = video("cat");
    p.enhance_prompt = true;
    let (mut call, _) = VideoCall::start(p, "vm", "tm");
    match call.enhanced(Err(Error::Http("down".to_string()))) {
        VideoAction::Create(body) => assert_eq!(body.get_str("prompt"), Some("cat")),
        other => panic!("unexpected {other:?}"),
    }
    assert_eq!(
        call.choice.warning.as_deref(),
        Some("[prompt enhancement failed: http error: down], using original prompt")
    );
}

#[test]
fn video_call_creation_failures() {
    let (mut call, _) = VideoCall::start(video("cat"), "vm", "tm");
    match call.created(Err(Error::Api("quota".to_string()))) {
        VideoAction::Reply(Err(ToolError::Failed(m))) => {
            assert_eq!(m, "Agnes video creation failed: agnes api error: quota")
        }
        other => panic!("unexpected {other:?}"),
    }
    match call.created(Ok((obj(vec![]), 0, "{}".to_string()))) {
        VideoAction::Reply(Ok(t)) => assert_eq!(
            t,
            "Video task submitted, but no task id was found in the response.\n\n{}"
        ),
        other => panic!("unexpected {other:?}"),
    }
}

#[test]
fn video_call_waits_and_downloads() {
    let mut p = video("cat");
    p.wait = true;
    p.save_to = Some("/tmp/out".to_string());
    let (mut call, _) = VideoCall::start(p, "vm", "tm");
    call.created(Ok((obj(vec![("task_id", text("t1"))]), 0, "{}".to_string())));
    match call.pinned() {
        VideoAction::Poll(id) => assert_eq!(id, "t1"),
        other => panic!("unexpected {other:?}"),
    }
    let response = completed("https://e.com/v.mp4");
    match call.polled(Ok((response, None, Some("5".to_string())))) {
        VideoAction::Download(url, dest) => {
            assert_eq!(url, "https://e.com/v.mp4");
            assert_eq!(dest, "/tmp/out");
        }
        other => panic!("unexpected {other:?}"),
    }
    match call.downloaded(Ok("/tmp/out/v.mp4".to_string())) {
        VideoAction::Reply(Ok(t)) => assert_eq!(
            t,
            "Task t1: completed\nVideo URL: https://e.com/v.mp4\nDuration: 5s\nSaved to: /tmp/out/v.mp4\n"
        ),
        other => panic!("unexpected {other:?}"),
    }
    match call.downloaded(Err("disk full".to_string())) {
        VideoAction::Reply(Ok(t)) => assert!(t.ends_with("[download failed: disk full]\n")),
        other => panic!("unexpected {other:?}"),
    }
}

#[test]
fn video_call_polling_failure_and_no_download_without_target() {
    let mut p = video("cat");
    p.wait = true;
    let (mut call, _) = VideoCall::start(p, "vm", "tm");
    call.created(Ok((obj(vec![("id", text("t2"))]), 0, "{}".to_string())));
    match call.polled(Err(Error::Api("timed out waiting for video task t2".to_string()))) {
        VideoAction::Reply(Err(ToolError::Failed(m))) => assert_eq!(
            m,
            "polling task t2 failed: agnes api error: timed out waiting for video task t2"
        ),
        other => panic!("unexpected {other:?}"),
    }
    match call.polled(Ok((completed("https://e.com/v.mp4"), None, None))) {
        VideoAction::Reply(Ok(t)) => {
            assert_eq!(t, "Task t2: completed\nVideo URL: https://e.com/v.mp4\n")
        }
        other => panic!("unexpected {other:?}"),
    }
}

#[test]
fn status_call_fetches_or_polls() {
    let params = VideoStatusToolParams {
        task_id: "t3".to_string(),
        wait: false,
        save_to: Some("/tmp/v.mp4".to_string()),
    };
    let (mut call, action) = StatusCall::start(params);
    match action {
        StatusAction::Fetch(id) => assert_eq!(id, "t3"),
        other => panic!("unexpected {other:?}"),
    }
    match call.received(Err(Error::Http("reset".to_string()))) {
        StatusAction::Reply(Err(ToolError::Failed(m))) => {
            assert_eq!(m, "retrieving task t3 failed: http error: reset")
        }
        other => panic!("unexpected {other:?}"),
    }
    let running = obj(vec![("status", text("processing")), ("video_url", text("https://e.com/v.mp4"))]);
    match call.received(Ok((running, Some("40".to_string()), None))) {
        StatusAction::Reply(Ok(t)) => assert_eq!(
            t,
            "Task t3: running\nVideo URL: https://e.com/v.mp4\nProgress: 40\n"
        ),
        other => panic!("unexpected {other:?}"),
    }
    match call.received(Ok((completed("https://e.com/v.mp4"), None, None))) {
        StatusAction::Download(url, dest) => {
            assert_eq!(url, "https://e.com/v.mp4");
            assert_eq!(dest, "/tmp/v.mp4");
        }
        other => panic!("unexpected {other:?}"),
    }
    match call.downloaded(Ok("/tmp/v.mp4".to_string())) {
        StatusAction::Reply(Ok(t)) => assert_eq!(
            t,
            "Task t3: completed\nVideo URL: https://e.com/v.mp4\nSaved to: /tmp/v.mp4\n"
        ),
        other => panic!("unexpected {other:?}"),
    }
    let (mut call, action) = StatusCall::start(VideoStatusToolParams {
        task_id: "t4".to_string(),
        wait: true,
        save_to: None,
    });
    assert!(matches!(action, StatusAction::Poll(ref id) if id == "t4"));
    match call.received(Err(Error::Http("reset".to_string()))) {
        StatusAction::Reply(Err(ToolError::Failed(m))) => {
            assert_eq!(m, "polling task t4 failed: http error: reset")
        }
        other => panic!("unexpected {other:?}"),
    }
}

#[test]
fn image_call_refuses_bad_size() {
    let mut p = image("cat", None);
    p.size = "big".to_string();
    let (_call, action) = ImageCall::start(p, "im", "tm");
    match action {
        ImageAction::Reply(Err(ToolError::InvalidArguments { tool, .. })) => {
            assert_eq!(tool, "agnes_generate_image")
        }
        other => panic!("unexpected {other:?}"),
    }
}

#[test]
fn image_call_reads_inputs_and_generates() {
    let p = image("cat", Some(vec!["https://e.com/r.png", "photo.jpg", "QUJD"]));
    let (mut call, action) = ImageCall::start(p, "im", "tm");
    match action {
        ImageAction::Read(inputs) => assert_eq!(inputs.len(), 3),
        other => panic!("unexpected {other:?}"),
    }
    let files = vec![Ok(None), Ok(Some(vec![1u8, 2, 3])), Ok(None)];
    match call.read(files) {
        ImageAction::Generate(body) => assert_eq!(
            to_json_text(&body),
            "{\"model\":\"im\",\"prompt\":\"cat\",\"size\":\"1024x768\",\"extra_body\":{\"response_format\":\"url\",\"image\":[\"https://e.com/r.png\",\"data:image/jpeg;base64,AQID\",\"data:image/png;base64,QUJD\"]}}"
        ),
        other => panic!("unexpected {other:?}"),
    }
}

#[test]
fn image_call_refuses_an_unreadable_input() {
    let p = image("cat", Some(vec!["a.png", "b.png"]));
    let (mut call, _) = ImageCall::start(p, "im", "tm");
    let files = vec![Ok(None), Err("permission denied".to_string())];
    match call.read(files) {
        ImageAction::Reply(Err(ToolError::InvalidArguments { tool, message })) => {
            assert_eq!(tool, "agnes_generate_image");
            assert_eq!(message, "invalid image input 'b.png': permission denied");
        }
        other => panic!("unexpected {other:?}"),
    }
}

#[test]
fn image_call_saves_and_reports() {
    let mut p = image("cat", None);
    p.save_to = Some("out/".to_string());
    let (mut call, _) = ImageCall::start(p, "im", "tm");
    assert!(matches!(call.read(vec![]), ImageAction::Generate(_)));
    match call.generated(Err(Error::Api("bad".to_string()))) {
        ImageAction::Reply(Err(ToolError::Failed(m))) => {
            assert_eq!(m, "Agnes image generation failed: agnes api error: bad")
        }
        other => panic!("unexpected {other:?}"),
    }
    let response = obj(vec![(
        "data",
        JsonValue::Array(vec![obj(vec![("url", text("https://e.com/1.png"))])]),
    )]);
    match call.generated(Ok((response, "{...}".to_string()))) {
        ImageAction::Save(urls, dest) => {
            assert_eq!(urls, vec!["https://e.com/1.png".to_string()]);
            assert_eq!(dest, "out/");
        }
        other => panic!("unexpected {other:?}"),
    }
    match call.saved("Saved to: /abs/out/1.png") {
        ImageAction::Reply(Ok(t)) => assert_eq!(
            t,
            "Image generated (text-to-image):\n- https://e.com/1.png\nSaved to: /abs/out/1.png\n"
        ),
        other => panic!("unexpected {other:?}"),
    }
}

#[test]
fn image_call_without_urls_reports_the_raw_response() {
    let (mut call, _) = ImageCall::start(image("cat", None), "im", "tm");
    call.read(vec![]);
    match call.generated(Ok((obj(vec![]), "{}".to_string()))) {
        ImageAction::Reply(Ok(t)) => assert_eq!(
            t,
            "Image generated (text-to-image), but no downloadable URL was returned.\n\nRaw response:\n{}"
        ),
        other => panic!("unexpected {other:?}"),
    }
}

#[test]
fn single_request_answers() {
    assert_eq!(
        ChatTool::answer(Ok((chat_reply("hi"), "{}".to_string()))).ok(),
        Some("hi".to_string())
    );
    match ChatTool::answer(Err(Error::Http("reset".to_string()))) {
        Err(ToolError::Failed(m)) => assert_eq!(m, "Agnes chat failed: http error: reset"),
        other => panic!("unexpected {other:?}"),
    }
    assert_eq!(
        ImageRecognitionTool::answer(Ok((obj(vec![]), "{raw}".to_string()))).ok(),
        Some("{raw}".to_string())
    );
    match ImageRecognitionTool::answer(Err(Error::Api("no".to_string()))) {
        Err(ToolError::Failed(m)) => {
            assert_eq!(m, "Agnes image recognition failed: agnes api error: no")
        }
        other => panic!("unexpected {other:?}"),
    }
    assert_eq!(
        EnhancePromptTool::answer(Ok((chat_reply("  rich  "), "{}".to_string()))).ok(),
        Some("rich".to_string())
    );
    match EnhancePromptTool::answer(Err(Error::Api("no".to_string()))) {
        Err(ToolError::Failed(m)) => {
            assert_eq!(m, "Agnes prompt enhancement failed: agnes api error: no")
        }
        other => panic!("unexpected {other:?}"),
    }
}

#[test]
fn recognition_image_loading() {
    assert_eq!(
        ImageRecognitionTool::load_image(" https://e.com/a.png ", Ok(None)).ok(),
        Some("https://e.com/a.png".to_string())
    );
    assert_eq!(
        ImageRecognitionTool::load_image("pic.gif", Ok(Some(vec![0u8]))).ok(),
        Some("data:image/gif;base64,AA==".to_string())
    );
    match ImageRecognitionTool::load_image("pic.gif", Err("not found".to_string())) {
        Err(ToolError::InvalidArguments { tool, message }) => {
            assert_eq!(tool, "agnes_image_recognition");
            assert_eq!(message, "could not load image: not found");
        }
        other => panic!("unexpected {other:?}"),
    }
}

#[test]
fn image_saves_into_a_directory_and_report_partial_failures() {
    let urls = vec!["https://e.com/a.png".to_string(), "https://e.com/b".to_string()];
    let (mut run, step) = ImageSaves::start(urls, "out", false);
    match step {
        SaveStep::Download(url, name) => {
            assert_eq!(url, "https://e.com/a.png");
            assert_eq!(name.as_deref(), Some("a.png"));
        }
        other => panic!("unexpected {other:?}"),
    }
    match run.downloaded(Ok("/abs/out/a.png".to_string())) {
        SaveStep::Download(url, name) => {
            assert_eq!(url, "https://e.com/b");
            assert_eq!(name.as_deref(), Some("image-1.png"));
        }
        other => panic!("unexpected {other:?}"),
    }
    match run.downloaded(Err("HTTP 404".to_string())) {
        SaveStep::Done(report) => assert_eq!(
            report,
            "Saved to: /abs/out/a.png; [partial failures: https://e.com/b: HTTP 404]"
        ),
        other => panic!("unexpected {other:?}"),
    }
}

#[test]
fn image_saves_a_single_file_to_the_path_itself() {
    let (mut run, step) = ImageSaves::start(vec!["https://e.com/a.png".to_string()], "pic.png", false);
    assert!(matches!(step, SaveStep::Download(_, None)));
    match run.downloaded(Err("refused".to_string())) {
        SaveStep::Done(report) => {
            assert_eq!(report, "[download failed: https://e.com/a.png: refused]")
        }
        other => panic!("unexpected {other:?}"),
    }
    let (_run, step) = ImageSaves::start(vec![], "dir", true);
    match step {
        SaveStep::Done(report) => assert_eq!(report, "Saved to: "),
        other => panic!("unexpected {other:?}"),
    }
}
