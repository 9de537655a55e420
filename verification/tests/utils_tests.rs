//! Validation helpers, file names of downloads and image inputs.

use agnes_mcp::utils::{
    derive_filename, ext_from_content_type, ext_from_url_suffix, image_input_path, mime_for_extension,
    mime_from_ext,
    resolve_image_input, size_verdict, validate_num_frames, validate_size,
};

#[test]
fn derive_filename_from_url_with_ext() {
    let name = derive_filename(
        "https://example.com/path/image.png",
        0,
        None,
        "image",
        "png",
    );
    assert_eq!(name, "image.png");
}

#[test]
fn derive_filename_uses_content_type_when_url_has_no_ext() {
    let name = derive_filename(
        "https://cdn.example.com/abc123",
        2,
        Some("image/jpeg"),
        "image",
        "png",
    );
    assert_eq!(name, "image-2.jpg");
}

#[test]
fn derive_filename_falls_back_to_default_ext() {
    let name = derive_filename("https://cdn.example.com/abc123", 0, None, "video", "mp4");
    assert_eq!(name, "video-0.mp4");
}

#[test]
fn derive_filename_strips_query_string() {
    let name = derive_filename(
        "https://example.com/pic.jpg?token=abc&sig=def",
        0,
        None,
        "image",
        "png",
    );
    assert_eq!(name, "pic.jpg");
}

#[test]
fn derive_filename_recognizes_video_ext() {
    let name = derive_filename("https://example.com/clip.mp4", 0, None, "video", "mp4");
    assert_eq!(name, "clip.mp4");
}

#[test]
fn derive_filename_edge_cases() {
    // Trailing slash: no base name, so the default extension is used.
    assert_eq!(derive_filename("https://example.com/dir/", 3, None, "image", ".png"), "image-3.png");
    // Content-Type parameters and case are ignored.
    assert_eq!(
        derive_filename("https://example.com/x", 1, Some(" Video/MP4; codecs=avc1"), "video", "bin"),
        "video-1.mp4"
    );
    // Upper-case recognized extension keeps the URL's name.
    assert_eq!(derive_filename("https://example.com/A.PNG#frag", 0, None, "image", "png"), "A.PNG");
}

#[test]
fn ext_helpers() {
    assert_eq!(ext_from_content_type("image/webp").as_deref(), Some("webp"));
    assert_eq!(ext_from_content_type("text/html").as_deref(), None);
    assert_eq!(ext_from_url_suffix("movie.MOV").as_deref(), Some("mov"));
    assert_eq!(ext_from_url_suffix("archive.tar.gz").as_deref(), None);
    assert_eq!(ext_from_url_suffix("noext").as_deref(), None);
}

#[test]
fn validate_size_ok() {
    assert!(validate_size("1024x768").is_ok());
    assert!(validate_size("1152x768").is_ok());
}

#[test]
fn validate_size_bad() {
    assert!(validate_size("1024").is_err());
    assert!(validate_size("0x768").is_err());
    assert!(validate_size("1024x").is_err());
}

#[test]
fn validate_size_message() {
    let e = validate_size("big").unwrap_err();
    assert_eq!(
        e.message(),
        "configuration error: invalid size 'big'. Use a pixel size such as 1024x768."
    );
    assert!(size_verdict("1x1", true).is_ok());
    assert!(size_verdict("1x1", false).is_err());
}

#[test]
fn validate_num_frames_ok() {
    for n in [81, 121, 161, 241, 441] {
        assert!(validate_num_frames(n).is_ok(), "{n} should be valid");
    }
}

#[test]
fn validate_num_frames_bad() {
    assert!(validate_num_frames(80).is_err());
    assert!(validate_num_frames(500).is_err());
    assert!(validate_num_frames(0).is_err());
}

#[test]
fn validate_num_frames_message() {
    let e = validate_num_frames(-7).unwrap_err();
    assert_eq!(
        e.message(),
        "configuration error: num_frames must be <= 441 and satisfy 8n + 1 (e.g. 81, 121, 161, 241, 441). Got -7."
    );
    assert!(validate_num_frames(1).is_ok());
    assert!(validate_num_frames(449).is_err());
}

#[test]
fn image_inputs_resolve() {
    assert_eq!(resolve_image_input(" https://e.com/a.png ", None), "https://e.com/a.png");
    assert_eq!(resolve_image_input("data:image/png;base64,AAAA", None), "data:image/png;base64,AAAA");
    assert_eq!(resolve_image_input("AAAA", None), "data:image/png;base64,AAAA");
    let bytes = vec![0x89u8, 0x50, 0x4E, 0x47];
    assert_eq!(resolve_image_input("/tmp/pic.JPG", Some(&bytes)), "data:image/jpeg;base64,iVBORw==");
    assert_eq!(resolve_image_input("/tmp/pic.bin", Some(&vec![1u8, 2, 3])), "data:image/png;base64,AQID");
    assert_eq!(image_input_path(" ./pic.png "), Some("./pic.png".to_string()));
    assert_eq!(image_input_path("http://e.com/x"), None);
}

#[test]
fn mime_types_from_extensions() {
    assert_eq!(mime_from_ext("a/b.jpeg"), "image/jpeg");
    assert_eq!(mime_from_ext("a/b.GIF"), "image/gif");
    assert_eq!(mime_from_ext("a/b.webp"), "image/webp");
    assert_eq!(mime_from_ext("a/b.bmp"), "image/bmp");
    assert_eq!(mime_from_ext("a/b"), "image/png");
}

#[test]
fn derived_names_are_plain_file_names() {
    let urls = [
        "https://example.com/a/b/c",
        "https://example.com/a/b/c.png?x=/y",
        "https://example.com/",
        "https://example.com/a#/frag",
        "no-scheme",
    ];
    for (i, url) in urls.iter().enumerate() {
        let name = derive_filename(url, i, Some("image/png; x=/y"), "image", "png");
        assert!(!name.contains('/'), "{name} holds a slash");
    }
}

#[test]
fn mime_types_from_extension_text() {
    assert_eq!(mime_for_extension(Some("JPG")), "image/jpeg");
    assert_eq!(mime_for_extension(Some("tiff")), "image/png");
    assert_eq!(mime_for_extension(None), "image/png");
}
