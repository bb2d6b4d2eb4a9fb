use trickery::commands::{parse_key_val, AgentResult, CommandResult, GenerateResult, ImageResult};
use trickery::error::{
    decimal, format_error, format_io_error, format_provider_error, Failure, IoFailure, IoFailureKind,
};
use trickery::image::{
    data_url_for, embed_image, generate_output_filename, is_remote, mime_type_for, output_filename,
    ImageFormat,
};
use trickery::provider::{HttpFailure, ProviderError};

#[test]
fn test_format_missing_api_key() {
    let err = ProviderError::MissingApiKey("OPENAI_API_KEY".to_string());
    let formatted = format_error(&Failure::Provider(err));
    assert!(formatted.contains("Missing API Key"));
    assert!(formatted.contains("OPENAI_API_KEY"));
    assert!(formatted.contains("export"));
}

#[test]
fn missing_api_key_is_told_in_full() {
    let err = ProviderError::MissingApiKey("OPENAI_API_KEY".to_string());
    assert_eq!(
        format_provider_error(&err),
        "\u{1F511} Missing API Key: OPENAI_API_KEY\n\n\u{2139} To fix this, set the environment variable:\n\nexport OPENAI_API_KEY=your_api_key_here\n\n\u{2139} You can get an API key from: https://platform.openai.com/api-keys"
    );
}

#[test]
fn test_format_api_error_401() {
    let err = ProviderError::Api {
        status: 401,
        message: "Unauthorized".to_string(),
    };
    let formatted = format_error(&Failure::Provider(err));
    assert!(formatted.contains("401"));
    assert!(formatted.contains("invalid or expired"));
}

#[test]
fn test_format_api_error_429() {
    let err = ProviderError::Api {
        status: 429,
        message: "Rate limit".to_string(),
    };
    let formatted = format_error(&Failure::Provider(err));
    assert!(formatted.contains("Rate limit exceeded"));
}

#[test]
fn test_format_api_error_500() {
    let err = ProviderError::Api {
        status: 500,
        message: "Internal error".to_string(),
    };
    let formatted = format_error(&Failure::Provider(err));
    assert!(formatted.contains("Server error"));
}

#[test]
fn api_errors_are_told_by_status() {
    let tell = |status: u16| format_provider_error(&ProviderError::Api { status, message: "m".to_string() });
    assert_eq!(tell(401), "\u{26A0} API Error (401): m\n\n\u{2139} Your API key may be invalid or expired.");
    assert_eq!(tell(429), "\u{26A0} API Error (429): m\n\n\u{2139} Rate limit exceeded. Wait a moment and try again.");
    assert_eq!(
        tell(503),
        "\u{1F310} API Error (503): m\n\n\u{2139} Server error. This is likely temporary, try again later."
    );
    assert_eq!(tell(599), "\u{1F310} API Error (599): m\n\n\u{2139} Server error. This is likely temporary, try again later.");
    assert_eq!(tell(600), "\u{1F310} API Error (600): m");
    assert_eq!(tell(404), "\u{26A0} API Error (404): m");
    assert_eq!(tell(499), "\u{26A0} API Error (499): m");
}

#[test]
fn transport_and_response_failures_are_told() {
    let failure = |is_connect: bool, is_timeout: bool| {
        ProviderError::Http(HttpFailure { message: "down".to_string(), is_connect, is_timeout })
    };
    assert_eq!(format_provider_error(&failure(false, false)), "\u{1F310} Network Error: down");
    assert_eq!(
        format_provider_error(&failure(true, true)),
        "\u{1F310} Network Error: down\n\n\u{2139} Check your internet connection and try again."
    );
    assert_eq!(
        format_provider_error(&failure(false, true)),
        "\u{1F310} Network Error: down\n\n\u{2139} Request timed out. The server may be busy, try again later."
    );
    assert_eq!(
        format_provider_error(&ProviderError::InvalidResponse("No choices in response".to_string())),
        "\u{26A0} Invalid Response: No choices in response\n\n\u{2139} The API returned an unexpected response format."
    );
}

#[test]
fn test_format_io_not_found() {
    let err = std::io::Error::new(std::io::ErrorKind::NotFound, "file not found");
    let failure = IoFailure { kind: IoFailureKind::NotFound, message: err.to_string() };
    let formatted = format_error(&Failure::Io(failure));
    assert!(formatted.contains("File Error"));
    assert!(formatted.contains("file path is correct"));
}

#[test]
fn io_and_other_failures_are_told() {
    let tell = |kind: IoFailureKind| format_io_error(&IoFailure { kind, message: "m".to_string() });
    assert_eq!(tell(IoFailureKind::NotFound), "\u{26A0} File Error: m\n\n\u{2139} Check that the file path is correct.");
    assert_eq!(
        tell(IoFailureKind::PermissionDenied),
        "\u{26A0} File Error: m\n\n\u{2139} You don't have permission to access this file."
    );
    assert_eq!(tell(IoFailureKind::Other), "\u{2717} File Error: m");
    assert_eq!(format_error(&Failure::Other("odd".to_string())), "\u{2717} Error: odd");
}

#[test]
fn numbers_are_written_in_decimal() {
    assert_eq!(decimal(0), "0");
    assert_eq!(decimal(7), "7");
    assert_eq!(decimal(10), "10");
    assert_eq!(decimal(401), "401");
    assert_eq!(decimal(65535), "65535");
    for n in [9u16, 99, 100, 1234, 50005] {
        assert_eq!(decimal(n), n.to_string());
    }
}

#[test]
fn test_parse_key_val() {
    let (key, val) = parse_key_val("name=John").unwrap();
    assert_eq!(key, "name");
    assert_eq!(val, serde_json::Value::String("John".to_string()));
}

#[test]
fn key_val_splits_at_the_first_equals_sign() {
    let (key, val) = parse_key_val("a=b=c").unwrap();
    assert_eq!(key, "a");
    assert_eq!(val, serde_json::Value::String("b=c".to_string()));
    let (key, val) = parse_key_val("=").unwrap();
    assert_eq!(key, "");
    assert_eq!(val, serde_json::Value::String(String::new()));
    assert_eq!(parse_key_val("novalue").unwrap_err(), "invalid KEY=VALUE: no `=` found in `novalue`");
}

#[test]
fn command_results_hand_back_themselves() {
    let agent = AgentResult { output: "a".to_string() };
    assert_eq!(agent.get_result().output, "a");
    let generate = GenerateResult { output: "g".to_string() };
    assert_eq!(generate.get_result().output, "g");
    let image = ImageResult { output_path: "x.png".to_string(), revised_prompt: Some("p".to_string()) };
    assert_eq!(image.get_result().output_path, "x.png");
    assert_eq!(image.get_result().revised_prompt, Some("p".to_string()));
}

#[test]
fn test_image_to_url_http_passthrough() {
    assert!(is_remote("http://example.com/image.png"));
}

#[test]
fn test_image_to_url_https_passthrough() {
    assert!(is_remote("https://example.com/path/to/image.jpg"));
    assert!(!is_remote("/nonexistent/path/to/image.png"));
    assert!(!is_remote("ftp://example.com/a.png"));
    assert!(!is_remote("xhttp://example.com/a.png"));
}

#[test]
fn test_image_to_url_local_png() {
    let test_data = vec![0x89, 0x50, 0x4E, 0x47]; // PNG magic bytes
    let result = embed_image("/tmp/some-file.png", &test_data);
    assert!(result.starts_with("data:image/png;base64,"));
    assert_eq!(result, "data:image/png;base64,iVBORw==");
}

#[test]
fn test_image_to_url_local_jpeg() {
    let test_data = vec![0xFF, 0xD8, 0xFF]; // JPEG magic bytes
    let result = embed_image("/tmp/some-file.jpg", &test_data);
    assert!(result.starts_with("data:image/jpeg;base64,"));
    assert_eq!(result, "data:image/jpeg;base64,/9j/");
}

#[test]
fn media_types_go_by_extension() {
    assert_eq!(mime_type_for(Some("png")), "image/png");
    assert_eq!(mime_type_for(Some("jpg")), "image/jpeg");
    assert_eq!(mime_type_for(Some("jpeg")), "image/jpeg");
    assert_eq!(mime_type_for(Some("gif")), "image/gif");
    assert_eq!(mime_type_for(Some("webp")), "image/webp");
    assert_eq!(mime_type_for(Some("bmp")), "image/png");
    assert_eq!(mime_type_for(Some("PNG")), "image/png");
    assert_eq!(mime_type_for(None), "image/png");
    assert_eq!(data_url_for(Some("gif"), b"hello"), "data:image/gif;base64,aGVsbG8=");
    assert_eq!(data_url_for(None, b""), "data:image/png;base64,");
    assert_eq!(embed_image("noextension", b"hi"), "data:image/png;base64,aGk=");
}

#[test]
fn test_generate_output_filename_default_format() {
    let output = generate_output_filename(Some("prompts/diagram.md"), None);
    let filename = output.as_str();

    // Should start with stem from input
    assert!(filename.starts_with("diagram-"));
    // Should have 5-char random suffix and .png extension
    assert!(filename.ends_with(".png"));
    // Should match pattern: stem-xxxxx.png (total ~15 chars)
    assert_eq!(filename.len(), "diagram-xxxxx.png".len());
}

#[test]
fn test_generate_output_filename_jpeg_format() {
    let output = generate_output_filename(Some("icon.md"), Some(ImageFormat::Jpeg));
    let filename = output.as_str();

    assert!(filename.starts_with("icon-"));
    assert!(filename.ends_with(".jpg"));
}

#[test]
fn test_generate_output_filename_webp_format() {
    let output = generate_output_filename(Some("test.md"), Some(ImageFormat::Webp));
    let filename = output.as_str();

    assert!(filename.starts_with("test-"));
    assert!(filename.ends_with(".webp"));
}

#[test]
fn test_generate_output_filename_uniqueness() {
    let output1 = generate_output_filename(Some("test.md"), None);
    let output2 = generate_output_filename(Some("test.md"), None);

    // Should generate different filenames (random suffix)
    assert_ne!(output1, output2);
}

#[test]
fn test_generate_output_filename_no_input() {
    let output = generate_output_filename(None, None);
    let filename = output.as_str();

    // Should use default "image" stem
    assert!(filename.starts_with("image-"));
    assert!(filename.ends_with(".png"));
    assert_eq!(filename.len(), "image-xxxxx.png".len());
}

#[test]
fn test_generate_output_filename_no_input_webp() {
    let output = generate_output_filename(None, Some(ImageFormat::Webp));
    let filename = output.as_str();

    assert!(filename.starts_with("image-"));
    assert!(filename.ends_with(".webp"));
}

#[test]
fn output_filenames_are_stem_suffix_and_extension() {
    assert_eq!(output_filename("diagram", "A3f5X", None), "diagram-a3f5x.png");
    assert_eq!(output_filename("icon", "zzzzz", Some(ImageFormat::Jpeg)), "icon-zzzzz.jpg");
    assert_eq!(output_filename("icon", "00000", Some(ImageFormat::Webp)), "icon-00000.webp");
    assert_eq!(output_filename("icon", "ABCDE", Some(ImageFormat::Png)), "icon-abcde.png");
    let name = generate_output_filename(Some("dir/photo.final.md"), Some(ImageFormat::Png));
    assert!(name.starts_with("photo.final-"));
    let suffix = &name["photo.final-".len()..name.len() - ".png".len()];
    assert_eq!(suffix.len(), 5);
    assert!(suffix.chars().all(|c| c.is_ascii_digit() || c.is_ascii_lowercase()));
}
