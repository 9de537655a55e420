//! The tools: requests they build and the text they return.

use agnes_mcp::json::{to_json_text, JsonValue};
use agnes_mcp::tools::agnes_client::TaskStatus;
use agnes_mcp::tools::chat::{ChatTool, ChatToolParams, HistoryMessage};
use agnes_mcp::tools::image::{resolve_image_inputs, GenerateImageTool, GenerateImageToolParams};
use agnes_mcp::tools::image_recognition::{
    build_vision_content, validate_detail, ImageRecognitionTool, ImageRecognitionToolParams,
};
use agnes_mcp::tools::prompt::{
    build_system_prompt, enhance_request, EnhancePromptTool, EnhancePromptToolParams, PromptTarget,
};
use agnes_mcp::tools::video::{
    poll_step, render_task_result, GenerateVideoTool, GenerateVideoToolParams, PollStep,
};
use agnes_mcp::tools::{choose_prompt, PromptChoice, ToolError};

fn tobj(entries: Vec<(&str, JsonValue)>) -> JsonValue {
    JsonValue::Object(entries.into_iter().map(|(k, v)| (k.to_string(), v)).collect())
}

fn tstr(s: &str) -> JsonValue {
    JsonValue::Str(s.to_string())
}

fn video_params(prompt: &str, image_urls: Option<Vec<String>>, mode: Option<&str>) -> GenerateVideoToolParams {
    GenerateVideoToolParams {
        prompt: prompt.to_string(),
        image_urls,
        mode: mode.map(|m| m.to_string()),
        width: 1152,
        height: 768,
        num_frames: 121,
        frame_rate: "24.0".to_string(),
        negative_prompt: None,
        seed: None,
        num_inference_steps: None,
        wait: false,
        enhance_prompt: false,
        save_to: None,
    }
}

#[test]
fn temperature_range_is_0_to_2() {
    // valid boundary values
    for t in [0.0_f64, 0.5, 1.0, 1.5, 2.0] {
        assert!((0.0..=2.0).contains(&t), "{t} should be valid");
    }
    // invalid values
    for t in [-0.1_f64, 2.1, 3.0, -1.0] {
        assert!(!(0.0..=2.0).contains(&t), "{t} should be invalid");
    }
}

#[test]
fn detail_valid_values() {
    for d in ["low", "high", "auto", "LOW", "High", "Auto"] {
        assert!(validate_detail(d).is_ok(), "{d} should be valid");
    }
}

#[test]
fn detail_invalid_values() {
    for d in ["ultra", "medium", "", "4k", "best"] {
        assert!(validate_detail(d).is_err(), "{d} should be invalid");
    }
}

#[test]
fn detail_is_lower_cased_and_errors_quote_it() {
    assert_eq!(validate_detail("HiGh").unwrap(), "high");
    assert_eq!(
        validate_detail("Ultra").unwrap_err(),
        "invalid detail 'ultra'. Expected one of: low, high, auto."
    );
}

#[test]
fn vision_content_shape() {
    let v = build_vision_content("what is it?", "https://e.com/a.png", Some("low".to_string()));
    assert_eq!(
        to_json_text(&v),
        "[{\"type\":\"text\",\"text\":\"what is it?\"},{\"type\":\"image_url\",\"image_url\":{\"url\":\"https://e.com/a.png\",\"detail\":\"low\"}}]"
    );
}

#[test]
fn image_recognition_request() {
    let params = ImageRecognitionToolParams {
        image: "https://e.com/a.png".to_string(),
        prompt: "describe".to_string(),
        system: Some("  ".to_string()),
        detail: None,
    };
    let req = ImageRecognitionTool::build_request(&params, "https://e.com/a.png", "m").expect("ok");
    assert_eq!(req.messages.len(), 1);
    assert_eq!(req.messages[0].role, "user");
    let params = ImageRecognitionToolParams { detail: Some("4k".to_string()), ..params };
    match ImageRecognitionTool::build_request(&params, "https://e.com/a.png", "m") {
        Err(ToolError::InvalidArguments { tool, message }) => {
            assert_eq!(tool, "agnes_image_recognition");
            assert_eq!(message, "invalid detail '4k'. Expected one of: low, high, auto.");
        }
        other => panic!("unexpected {other:?}"),
    }
}

#[test]
fn build_body_text_to_video() {
    let params = video_params("a cat", None, None);
    let body = GenerateVideoTool::build_body(&params, "test-video-model", "a cat");
    assert_eq!(body.get_str("model"), Some("test-video-model"));
    assert_eq!(body.get_str("prompt"), Some("a cat"));
    assert!(body.get("image").is_none());
    assert!(body.get("extra_body").is_none());
}

#[test]
fn build_body_image_to_video_single() {
    let params = video_params(
        "animate",
        Some(vec!["https://example.com/i.png".to_string()]),
        None,
    );
    let body = GenerateVideoTool::build_body(&params, "test-video-model", "a cat");
    assert_eq!(body.get_str("image"), Some("https://example.com/i.png"));
}

#[test]
fn build_body_keyframes() {
    let params = video_params(
        "transition",
        Some(vec![
            "https://example.com/k1.png".to_string(),
            "https://example.com/k2.png".to_string(),
        ]),
        Some("keyframes"),
    );
    let body = GenerateVideoTool::build_body(&params, "test-video-model", "a cat");
    let extra = body.get("extra_body").expect("extra_body");
    assert_eq!(extra.get_str("mode"), Some("keyframes"));
    match extra.get("image") {
        Some(JsonValue::Array(a)) => assert_eq!(a.len(), 2),
        other => panic!("expected an array, got {other:?}"),
    }
}

#[test]
fn build_body_full_text() {
    let mut params = video_params("p", Some(vec!["https://e.com/a.png".to_string()]), Some("ti2vid"));
    params.seed = Some(-3);
    params.negative_prompt = Some("blur".to_string());
    let body = GenerateVideoTool::build_body(&params, "vm", "p");
    assert_eq!(
        to_json_text(&body),
        "{\"model\":\"vm\",\"prompt\":\"p\",\"width\":1152,\"height\":768,\"num_frames\":121,\"frame_rate\":24.0,\"negative_prompt\":\"blur\",\"seed\":-3,\"image\":\"https://e.com/a.png\",\"mode\":\"ti2vid\"}"
    );
}

#[test]
fn video_validation() {
    let mut params = video_params("p", None, Some("slideshow"));
    match GenerateVideoTool::validate(&params) {
        Err(ToolError::InvalidArguments { message, .. }) => assert_eq!(
            message,
            "invalid mode 'slideshow'. Expected one of: ti2vid, keyframes, multi-image"
        ),
        other => panic!("unexpected {other:?}"),
    }
    params.mode = Some("multi-image".to_string());
    assert!(GenerateVideoTool::validate(&params).is_ok());
    params.num_frames = 120;
    assert!(GenerateVideoTool::validate(&params).is_err());
}

#[test]
fn video_mode_labels() {
    assert_eq!(GenerateVideoTool::mode_label(None, 0), "text-to-video");
    assert_eq!(GenerateVideoTool::mode_label(None, 1), "image-to-video");
    assert_eq!(GenerateVideoTool::mode_label(None, 3), "multi-image");
    assert_eq!(GenerateVideoTool::mode_label(Some("keyframes"), 2), "keyframes");
}

#[test]
fn render_completed_task() {
    let content = render_task_result(
        "task_1",
        TaskStatus::Done,
        Some("https://example.com/v.mp4"),
        None,
        Some("5"),
    );
    assert!(content.contains("completed"));
    assert!(content.contains("https://example.com/v.mp4"));
    assert_eq!(
        content,
        "Task task_1: completed\nVideo URL: https://example.com/v.mp4\nDuration: 5s\n"
    );
}

#[test]
fn poll_steps() {
    let done = tobj(vec![("status", tstr("completed"))]);
    assert!(matches!(poll_step("t", &done, 10, 5), PollStep::Finished));
    let failed = tobj(vec![("status", tstr("cancelled"))]);
    match poll_step("t", &failed, 0, 5) {
        PollStep::Stop(e) => assert_eq!(
            e.message(),
            "agnes api error: video task t failed with status 'cancelled'"
        ),
        other => panic!("unexpected {other:?}"),
    }
    let running = tobj(vec![("status", tstr("queued"))]);
    assert!(matches!(poll_step("t", &running, 4, 5), PollStep::Continue));
    match poll_step("t", &running, 5, 5) {
        PollStep::Stop(e) => {
            assert_eq!(e.message(), "agnes api error: timed out waiting for video task t")
        }
        other => panic!("unexpected {other:?}"),
    }
}

#[test]
fn created_and_missing_task_reports() {
    let choice = choose_prompt("p", Some(Err("boom".to_string())));
    let expected = String::from("Video task created (text-to-video).\nTask ID: t9\n\nUse the `agnes_video_status`")
        + " tool with this"
        + " task id (and wait=true to poll) to retrieve the result."
        + "\n[prompt enhancement failed: boom], using original prompt";
    assert_eq!(GenerateVideoTool::created_report("text-to-video", "t9", &choice), expected);
    let choice = choose_prompt("p", Some(Ok("rich p".to_string())));
    assert_eq!(
        GenerateVideoTool::no_task_report("{}", &choice),
        "Video task submitted, but no task id was found in the response.\n\n{}\nEnhanced prompt: rich p"
    );
}

#[test]
fn prompt_choice_cases() {
    let c: PromptChoice = choose_prompt("p", None);
    assert_eq!(c.effective, "p");
    assert!(c.enhanced_note.is_none() && c.warning.is_none());
    let c = choose_prompt("p", Some(Ok("q".to_string())));
    assert_eq!(c.effective, "q");
    assert_eq!(c.enhanced_note.as_deref(), Some("q"));
}

#[test]
fn resolve_image_inputs_passes_through_https_urls() {
    let inputs = vec![
        "https://example.com/a.png".to_string(),
        "http://example.com/b.jpg".to_string(),
    ];
    let resolved = resolve_image_inputs(Some(&inputs), &vec![]);
    assert_eq!(resolved, inputs);
}

#[test]
fn resolve_image_inputs_passes_through_data_uri() {
    let inputs = vec!["data:image/png;base64,AAAA".to_string()];
    let resolved = resolve_image_inputs(Some(&inputs), &vec![]);
    assert_eq!(resolved, inputs);
}

#[test]
fn resolve_image_inputs_wraps_raw_base64() {
    let inputs = vec!["AAAA".to_string()];
    let resolved = resolve_image_inputs(Some(&inputs), &vec![None]);
    assert_eq!(resolved, vec!["data:image/png;base64,AAAA".to_string()]);
}

#[test]
fn resolve_image_inputs_reads_local_file_as_data_uri() {
    let path = "/tmp/reference.png".to_string();
    let resolved = resolve_image_inputs(Some(&vec![path]), &vec![Some(vec![0x89, 0x50, 0x4E, 0x47])]);
    assert_eq!(resolved.len(), 1);
    assert!(
        resolved[0].starts_with("data:image/png;base64,"),
        "expected data URI, got {}",
        resolved[0]
    );
}

#[test]
fn resolve_image_inputs_handles_none_and_empty() {
    assert!(resolve_image_inputs(None, &vec![]).is_empty());
    assert!(resolve_image_inputs(Some(&vec![]), &vec![]).is_empty());
}

#[test]
fn image_body_and_output() {
    let body = GenerateImageTool::build_body("im", "cat", "1024x768", &vec!["https://e.com/r.png".to_string()]);
    assert_eq!(
        to_json_text(&body),
        "{\"model\":\"im\",\"prompt\":\"cat\",\"size\":\"1024x768\",\"extra_body\":{\"response_format\":\"url\",\"image\":[\"https://e.com/r.png\"]}}"
    );
    let choice = choose_prompt("cat", None);
    let out = GenerateImageTool::output(
        &vec!["https://e.com/1.png".to_string(), "https://e.com/2.png".to_string()],
        "{}",
        false,
        &choice,
        Some("Saved to: /a, /b"),
    );
    assert_eq!(
        out,
        "Image generated (text-to-image):\n- https://e.com/1.png\n- https://e.com/2.png\nSaved to: /a, /b\n"
    );
    let out = GenerateImageTool::output(&vec![], "{}", true, &choice, None);
    assert_eq!(
        out,
        "Image generated (image-to-image), but no downloadable URL was returned.\n\nRaw response:\n{}"
    );
}

#[test]
fn image_validation_and_saving() {
    let params = GenerateImageToolParams {
        prompt: "cat".to_string(),
        size: "huge".to_string(),
        image_urls: None,
        enhance_prompt: false,
        save_to: None,
    };
    match GenerateImageTool::validate(&params) {
        Err(ToolError::InvalidArguments { tool, message }) => {
            assert_eq!(tool, "agnes_generate_image");
            assert_eq!(
                message,
                "configuration error: invalid size 'huge'. Use a pixel size such as 1024x768."
            );
        }
        other => panic!("unexpected {other:?}"),
    }
    assert!(GenerateImageTool::saves_into_dir("out/", false, 1));
    assert!(GenerateImageTool::saves_into_dir("out.png", false, 2));
    assert!(!GenerateImageTool::saves_into_dir("out.png", false, 1));
    assert_eq!(
        GenerateImageTool::file_names(&vec!["https://e.com/x".to_string(), "https://e.com/y.jpg".to_string()]),
        vec!["image-0.png".to_string(), "y.jpg".to_string()]
    );
    assert_eq!(
        GenerateImageTool::save_report(&vec![], &vec!["u: e".to_string()]),
        "[download failed: u: e]"
    );
    assert_eq!(
        GenerateImageTool::save_report(&vec!["/a".to_string()], &vec!["u: e".to_string(), "v: f".to_string()]),
        "Saved to: /a; [partial failures: u: e; v: f]"
    );
}

#[test]
fn chat_request_building() {
    let params = ChatToolParams {
        prompt: "hi".to_string(),
        system: Some("be brief".to_string()),
        history: Some(vec![HistoryMessage { role: "assistant".to_string(), content: "hello".to_string() }]),
        temperature: Some("0.5".to_string()),
        top_p: None,
        max_tokens: Some(64),
    };
    let req = ChatTool::build_request(&params, "agnes-2.0-flash").expect("ok");
    assert_eq!(
        to_json_text(&req.to_json()),
        "{\"model\":\"agnes-2.0-flash\",\"messages\":[{\"role\":\"system\",\"content\":\"be brief\"},{\"role\":\"assistant\",\"content\":\"hello\"},{\"role\":\"user\",\"content\":\"hi\"}],\"temperature\":0.5,\"max_tokens\":64}"
    );
    let bad = ChatToolParams {
        history: Some(vec![HistoryMessage { role: "tool".to_string(), content: "x".to_string() }]),
        ..params
    };
    match ChatTool::build_request(&bad, "m") {
        Err(ToolError::InvalidArguments { message, .. }) => {
            assert_eq!(message, "invalid history role: tool")
        }
        other => panic!("unexpected {other:?}"),
    }
}

#[test]
fn chat_output_with_usage() {
    let resp = tobj(vec![(
        "choices",
        JsonValue::Array(vec![tobj(vec![("message", tobj(vec![("content", tstr("answer"))]))])]),
    )]);
    assert_eq!(ChatTool::output(&resp, "{}", Some("12 tokens")), "answer\n\n---\n_usage: 12 tokens_");
    assert_eq!(ChatTool::output(&tobj(vec![]), "{}", None), "{}");
}

#[test]
fn enhance_prompt_request() {
    let req = enhance_request("a cat", PromptTarget::Video, "tm");
    assert_eq!(req.temperature.as_deref(), Some("0.8"));
    assert_eq!(req.max_tokens, Some(512));
    assert_eq!(req.messages.len(), 2);
    assert_eq!(build_system_prompt("video").len() > 0, true);
    assert!(build_system_prompt("other").contains("image prompt"));
    let params = EnhancePromptToolParams { prompt: "x".to_string(), target: " Video ".to_string() };
    assert!(EnhancePromptTool::build_request(&params, "tm").is_ok());
    let params = EnhancePromptToolParams { prompt: "x".to_string(), target: "audio".to_string() };
    match EnhancePromptTool::build_request(&params, "tm") {
        Err(ToolError::InvalidArguments { message, .. }) => {
            assert_eq!(message, "target must be 'image' or 'video', got: audio")
        }
        other => panic!("unexpected {other:?}"),
    }
}
