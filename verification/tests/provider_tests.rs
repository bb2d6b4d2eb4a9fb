use trickery::provider::openai::{
    api_failure, is_success, response_from_wire, OpenAIChoice, OpenAIContentPart, OpenAIFunctionCall,
    OpenAIMessage, OpenAIProvider, OpenAIResponse, OpenAIResponseMessage, OpenAITool, OpenAIToolCall,
    OpenAIUsage, DEFAULT_BASE_URL, DEFAULT_MODEL,
};
use trickery::provider::{
    CompletionRequest, ContentPart, FunctionCall, ImageUrl, Message, ProviderError, ReasoningLevel,
    Role, Temperature, Tool, ToolCall, Usage,
};

fn object_schema() -> serde_json::Value {
    let mut location = serde_json::Map::new();
    location.insert("type".to_string(), serde_json::Value::String("string".to_string()));
    let mut properties = serde_json::Map::new();
    properties.insert("location".to_string(), serde_json::Value::Object(location));
    let mut schema = serde_json::Map::new();
    schema.insert("type".to_string(), serde_json::Value::String("object".to_string()));
    schema.insert("properties".to_string(), serde_json::Value::Object(properties));
    serde_json::Value::Object(schema)
}

#[test]
fn test_reasoning_level_from_str() {
    assert_eq!(
        "low".parse::<ReasoningLevel>().unwrap(),
        ReasoningLevel::Low
    );
    assert_eq!(
        "MEDIUM".parse::<ReasoningLevel>().unwrap(),
        ReasoningLevel::Medium
    );
    assert_eq!(
        "High".parse::<ReasoningLevel>().unwrap(),
        ReasoningLevel::High
    );
    assert!("invalid".parse::<ReasoningLevel>().is_err());
}

#[test]
fn reasoning_level_rejection_quotes_the_input() {
    assert_eq!(
        ReasoningLevel::parse("Extreme").unwrap_err(),
        "Invalid reasoning level: Extreme. Use: low, medium, high"
    );
    assert_eq!(ReasoningLevel::from_lowercase("high", "HIGH"), Ok(ReasoningLevel::High));
    assert_eq!(ReasoningLevel::default(), ReasoningLevel::Medium);
}

#[test]
fn test_content_part_text() {
    let part = ContentPart::text("Hello");
    assert_eq!(part, ContentPart::Text { text: "Hello".to_string() });
}

#[test]
fn content_part_image_url_has_no_detail() {
    let part = ContentPart::image_url("https://example.com/a.png");
    assert_eq!(
        part,
        ContentPart::ImageUrl {
            image_url: ImageUrl { url: "https://example.com/a.png".to_string(), detail: None }
        }
    );
}

#[test]
fn test_message_constructors() {
    let sys = Message::system("You are helpful");
    assert_eq!(sys.role, Role::System);
    assert_eq!(sys.text_content(), Some("You are helpful".to_string()));

    let user = Message::user("Hello");
    assert_eq!(user.role, Role::User);
    assert_eq!(user.text_content(), Some("Hello".to_string()));

    let tool = Message::tool_result("call_123", "result");
    assert_eq!(tool.role, Role::Tool);
    assert_eq!(tool.tool_call_id, Some("call_123".to_string()));
}

#[test]
fn test_message_content_parts() {
    let msg = Message::user_parts(vec![
        ContentPart::text("Hello "),
        ContentPart::text("World"),
    ]);
    assert_eq!(msg.text_content(), Some("Hello World".to_string()));
}

#[test]
fn text_content_skips_images_and_keeps_order() {
    let msg = Message::user_parts(vec![
        ContentPart::text("a"),
        ContentPart::image_url("http://x/y.png"),
        ContentPart::text("b"),
    ]);
    assert_eq!(msg.text_content(), Some("ab".to_string()));
    let parts = msg.content.unwrap();
    assert_eq!(parts.len(), 3);
    assert_eq!(parts[1], ContentPart::image_url("http://x/y.png"));
}

#[test]
fn text_content_of_a_message_without_content_is_none() {
    let call = ToolCall {
        id: "1".to_string(),
        call_type: "function".to_string(),
        function: FunctionCall { name: "echo".to_string(), arguments: "{}".to_string() },
    };
    let msg = Message::assistant_with_tool_calls(vec![call]);
    assert_eq!(msg.role, Role::Assistant);
    assert!(msg.content.is_none());
    assert_eq!(msg.text_content(), None);
    assert_eq!(msg.tool_calls.as_ref().unwrap().len(), 1);
    assert_eq!(msg.tool_calls.as_ref().unwrap()[0].id, "1");
    assert!(msg.tool_call_id.is_none());
    let empty = Message::user_parts(vec![]);
    assert_eq!(empty.text_content(), Some(String::new()));
}

#[test]
fn message_clone_keeps_everything() {
    let msg = Message::tool_result("call_9", "nine");
    let copy = msg.clone();
    assert_eq!(copy.role, Role::Tool);
    assert_eq!(copy.content, msg.content);
    assert_eq!(copy.tool_call_id, Some("call_9".to_string()));
}

#[test]
fn request_builders_set_one_field_each() {
    let request = CompletionRequest::new(vec![Message::user("hi")]);
    assert_eq!(request.messages.len(), 1);
    assert!(request.model.is_none());
    assert!(request.reasoning_level.is_none());
    assert!(request.tools.is_none());
    assert!(request.max_tokens.is_none());
    assert!(request.temperature.is_none());
    let request = request
        .with_model("gpt-x")
        .with_reasoning_level(ReasoningLevel::High)
        .with_max_tokens(77)
        .with_temperature(Temperature { bits: 0.5f32.to_bits() })
        .with_tools(vec![Tool::function("t", "d", serde_json::Value::Null)]);
    assert_eq!(request.model, Some("gpt-x".to_string()));
    assert_eq!(request.reasoning_level, Some(ReasoningLevel::High));
    assert_eq!(request.max_tokens, Some(77));
    assert_eq!(f32::from_bits(request.temperature.unwrap().bits), 0.5);
    assert_eq!(request.tools.as_ref().unwrap().len(), 1);
    assert_eq!(request.messages.len(), 1);
    let empty = CompletionRequest::default();
    assert!(empty.messages.is_empty());
}

#[test]
fn test_provider_new() {
    let provider = OpenAIProvider::new("test-key".to_string(), None);
    assert_eq!(provider.api_key(), "test-key");
    assert_eq!(provider.base_url(), DEFAULT_BASE_URL);
    assert_eq!(provider.default_model(), DEFAULT_MODEL);
}

#[test]
fn test_provider_custom_base_url() {
    let provider = OpenAIProvider::new(
        "test-key".to_string(),
        Some("https://custom.api.com".to_string()),
    );
    assert_eq!(provider.base_url(), "https://custom.api.com");
}

#[test]
fn provider_without_a_credential_is_refused() {
    match OpenAIProvider::from_settings(None, Some("https://custom.api.com".to_string())) {
        Err(ProviderError::MissingApiKey(name)) => assert_eq!(name, "OPENAI_API_KEY"),
        _ => panic!("expected a missing credential"),
    }
    let provider = OpenAIProvider::from_settings(Some("k".to_string()), None).unwrap();
    assert_eq!(provider.api_key(), "k");
    assert_eq!(provider.base_url(), "https://api.openai.com/v1");
    assert_eq!(provider.endpoint(), "https://api.openai.com/v1/chat/completions");
    assert_eq!(provider.authorization(), "Bearer k");
}

#[test]
fn test_openai_message_conversion() {
    let msg = Message::user("Hello");
    let openai_msg = OpenAIMessage::from_message(&msg);
    assert_eq!(openai_msg.role, "user");
    let content = openai_msg.content.unwrap();
    assert_eq!(content.len(), 1);
    match &content[0] {
        OpenAIContentPart::Text { text } => assert_eq!(text, "Hello"),
        _ => panic!("Expected text content"),
    }
}

#[test]
fn wire_message_keeps_calls_images_and_back_reference() {
    let call = ToolCall {
        id: "c1".to_string(),
        call_type: "function".to_string(),
        function: FunctionCall { name: "echo".to_string(), arguments: "\"x\"".to_string() },
    };
    let wire = OpenAIMessage::from_message(&Message::assistant_with_tool_calls(vec![call]));
    assert_eq!(wire.role, "assistant");
    assert!(wire.content.is_none());
    let calls = wire.tool_calls.unwrap();
    assert_eq!(calls.len(), 1);
    assert_eq!(calls[0].id, "c1");
    assert_eq!(calls[0].type_field, "function");
    assert_eq!(calls[0].function.name, "echo");
    assert_eq!(calls[0].function.arguments, "\"x\"");

    let wire = OpenAIMessage::from_message(&Message::tool_result("c1", "x"));
    assert_eq!(wire.role, "tool");
    assert_eq!(wire.tool_call_id, Some("c1".to_string()));

    let wire = OpenAIMessage::from_message(&Message::system("s"));
    assert_eq!(wire.role, "system");

    let image = ContentPart::ImageUrl {
        image_url: ImageUrl { url: "data:image/png;base64,AAAA".to_string(), detail: Some("low".to_string()) },
    };
    let wire = OpenAIMessage::from_message(&Message::user_parts(vec![image]));
    match &wire.content.unwrap()[0] {
        OpenAIContentPart::ImageUrl { image_url } => {
            assert_eq!(image_url.url, "data:image/png;base64,AAAA");
            assert_eq!(image_url.detail, Some("low".to_string()));
        }
        _ => panic!("expected an image part"),
    }
}

#[test]
fn test_openai_tool_conversion() {
    let tool = Tool::function("get_weather", "Get weather for a location", object_schema());
    let openai_tool = OpenAITool::from_tool(&tool);
    assert_eq!(openai_tool.type_field, "function");
    assert_eq!(openai_tool.function.name, "get_weather");
    assert_eq!(openai_tool.function.description, "Get weather for a location");
    assert_eq!(openai_tool.function.parameters, object_schema());
}

#[test]
fn reasoning_models_get_effort_and_no_temperature() {
    let provider = OpenAIProvider::new("k".to_string(), None);
    let request = CompletionRequest::new(vec![Message::user("hi")])
        .with_model("o3-mini")
        .with_reasoning_level(ReasoningLevel::Low)
        .with_temperature(Temperature { bits: 1.0f32.to_bits() })
        .with_max_tokens(5);
    let wire = provider.build_request(&request);
    assert_eq!(wire.model, "o3-mini");
    assert_eq!(wire.temperature, None);
    assert_eq!(wire.reasoning_effort, Some("low".to_string()));
    assert_eq!(wire.max_completion_tokens, Some(5));
    assert_eq!(wire.messages.len(), 1);
    assert!(wire.tools.is_none());

    let request = CompletionRequest::new(vec![]).with_model("o1");
    let wire = provider.build_request(&request);
    assert_eq!(wire.reasoning_effort, None);
    let request = CompletionRequest::new(vec![]).with_model("o1").with_reasoning_level(ReasoningLevel::Medium);
    assert_eq!(provider.build_request(&request).reasoning_effort, Some("medium".to_string()));
    let request = CompletionRequest::new(vec![]).with_model("o1").with_reasoning_level(ReasoningLevel::High);
    assert_eq!(provider.build_request(&request).reasoning_effort, Some("high".to_string()));
}

#[test]
fn other_models_get_temperature_and_no_effort() {
    let provider = OpenAIProvider::new("k".to_string(), None);
    let request = CompletionRequest::new(vec![Message::system("s"), Message::user("hi")])
        .with_reasoning_level(ReasoningLevel::High)
        .with_temperature(Temperature { bits: 1.0f32.to_bits() })
        .with_tools(vec![Tool::function("t", "d", serde_json::Value::Null)]);
    let wire = provider.build_request(&request);
    assert_eq!(wire.model, "gpt-5-mini");
    assert_eq!(wire.temperature, Some(Temperature { bits: 1.0f32.to_bits() }));
    assert_eq!(wire.reasoning_effort, None);
    assert_eq!(wire.max_completion_tokens, None);
    assert_eq!(wire.messages.len(), 2);
    assert_eq!(wire.messages[0].role, "system");
    assert_eq!(wire.messages[1].role, "user");
    let tools = wire.tools.unwrap();
    assert_eq!(tools.len(), 1);
    assert_eq!(tools[0].function.name, "t");
    let request = CompletionRequest::new(vec![]).with_model("go1");
    assert_eq!(provider.build_request(&request).model, "go1");
    let request = CompletionRequest::new(vec![]).with_model("go1").with_reasoning_level(ReasoningLevel::Low);
    assert_eq!(provider.build_request(&request).reasoning_effort, None);
}

#[test]
fn status_codes_from_200_to_299_are_success() {
    assert!(is_success(200));
    assert!(is_success(299));
    assert!(!is_success(199));
    assert!(!is_success(300));
    assert!(!is_success(401));
    match api_failure(401, "{\"error\": {\"message\": \"Invalid API key\"}}".to_string()) {
        ProviderError::Api { status, message } => {
            assert_eq!(status, 401);
            assert_eq!(message, "{\"error\": {\"message\": \"Invalid API key\"}}");
        }
        _ => panic!("Expected Api error"),
    }
}

#[test]
fn a_response_without_choices_is_invalid() {
    let response = OpenAIResponse { choices: vec![], usage: None };
    match response_from_wire(response) {
        Err(ProviderError::InvalidResponse(detail)) => assert_eq!(detail, "No choices in response"),
        _ => panic!("expected an invalid response"),
    }
}

#[test]
fn the_first_choice_is_decoded() {
    let first = OpenAIChoice {
        message: OpenAIResponseMessage {
            role: "assistant".to_string(),
            content: Some("Hello! How can I help you?".to_string()),
            tool_calls: None,
        },
        finish_reason: Some("stop".to_string()),
    };
    let second = OpenAIChoice {
        message: OpenAIResponseMessage { role: "assistant".to_string(), content: Some("other".to_string()), tool_calls: None },
        finish_reason: None,
    };
    let third = OpenAIChoice {
        message: OpenAIResponseMessage { role: "assistant".to_string(), content: Some("third".to_string()), tool_calls: None },
        finish_reason: None,
    };
    let response = OpenAIResponse {
        choices: vec![first, second, third],
        usage: Some(OpenAIUsage { prompt_tokens: 10, completion_tokens: 8, total_tokens: 18 }),
    };
    let decoded = response_from_wire(response).unwrap();
    assert_eq!(decoded.content, Some("Hello! How can I help you?".to_string()));
    assert_eq!(decoded.finish_reason, "stop");
    assert_eq!(decoded.usage.total_tokens, 18);
    assert_eq!(decoded.usage, Usage { prompt_tokens: 10, completion_tokens: 8, total_tokens: 18 });
    assert!(decoded.tool_calls.is_none());
}

#[test]
fn tool_calls_are_decoded_one_for_one_and_usage_defaults_to_zero() {
    let call = |id: &str, name: &str| OpenAIToolCall {
        id: id.to_string(),
        type_field: "function".to_string(),
        function: OpenAIFunctionCall { name: name.to_string(), arguments: "{\"location\": \"Paris\"}".to_string() },
    };
    let response = OpenAIResponse {
        choices: vec![OpenAIChoice {
            message: OpenAIResponseMessage {
                role: "assistant".to_string(),
                content: None,
                tool_calls: Some(vec![call("call_abc123", "get_weather"), call("call_2", "other")]),
            },
            finish_reason: None,
        }],
        usage: None,
    };
    let decoded = response_from_wire(response).unwrap();
    assert!(decoded.content.is_none());
    let tool_calls = decoded.tool_calls.unwrap();
    assert_eq!(tool_calls.len(), 2);
    assert_eq!(tool_calls[0].id, "call_abc123");
    assert_eq!(tool_calls[0].call_type, "function");
    assert_eq!(tool_calls[0].function.name, "get_weather");
    assert_eq!(tool_calls[0].function.arguments, "{\"location\": \"Paris\"}");
    assert_eq!(tool_calls[1].id, "call_2");
    assert_eq!(decoded.finish_reason, "");
    assert_eq!(decoded.usage, Usage::default());
    assert_eq!(decoded.usage.total_tokens, 0);
}
