use api_gemini::error::Error;
use api_gemini::templates::RequestTemplate;
use api_gemini::types::{CodeExecutionConfig, CodeExecutionTool, FunctionCallingConfig, TuningExample};
use api_gemini::validation::{
    validate_code_execution_config, validate_code_execution_tool, validate_function_calling_config,
    validate_model_name, validate_tuning_example, ValidationError,
};
use api_gemini::websocket::{StreamDirection, WebSocketStreamBuilder, WebSocketStreamMessage};
use api_gemini::websocket_streaming::{WebSocketConfig, WebSocketConnection, WebSocketConnectionState};

fn message_of(r: Result<(), ValidationError>) -> String {
    match r {
        Err(e) => e.message(),
        Ok(()) => panic!("expected a validation error"),
    }
}

#[test]
fn validation_messages_follow_display() {
    let e = ValidationError::ValueOutOfRange { field: "timeout".to_string(), value: -3, min: Some(1), max: None };
    assert_eq!(e.message(), "Value -3 for field 'timeout' is not at least 1");
    let e = ValidationError::ValueOutOfRange { field: "x".to_string(), value: 7, min: None, max: None };
    assert_eq!(e.message(), "Value 7 for field 'x' is not within valid range");
    let e = ValidationError::CollectionTooLarge { field: "items".to_string(), size: 101, max: 100 };
    assert_eq!(e.message(), "Collection 'items' has 101 items, exceeding maximum of 100");
    let e = ValidationError::EmptyCollection { field: "items".to_string(), context: "Batch".to_string() };
    assert_eq!(e.message(), "Collection 'items' cannot be empty in Batch");
}

#[test]
fn model_names_are_checked() {
    assert!(validate_model_name("gemini-pro").is_ok());
    assert_eq!(
        message_of(validate_model_name("   ")),
        "Required field 'model_name' is missing or empty in model validation"
    );
    assert_eq!(
        message_of(validate_model_name("bad\nname")),
        "Invalid value 'bad\nname' for field 'model_name': Model name contains invalid characters (newlines or null bytes)"
    );
    assert!(validate_model_name("nul\0").is_err());
}

#[test]
fn function_names_are_checked_in_order() {
    let ok = FunctionCallingConfig { mode: None, allowed_function_names: Some(vec!["get_weather".to_string()]) };
    assert!(validate_function_calling_config(&ok).is_ok());
    let empty = FunctionCallingConfig { mode: None, allowed_function_names: Some(Vec::new()) };
    assert_eq!(
        message_of(validate_function_calling_config(&empty)),
        "Collection 'allowed_function_names' cannot be empty in FunctionCallingConfig"
    );
    let bad = FunctionCallingConfig {
        mode: None,
        allowed_function_names: Some(vec!["fine".to_string(), "not-fine".to_string(), " ".to_string()]),
    };
    assert_eq!(
        message_of(validate_function_calling_config(&bad)),
        "Invalid value 'not-fine' for field 'allowed_function_names[1]': Function name should contain only alphanumeric characters and underscores"
    );
    let blank = FunctionCallingConfig { mode: None, allowed_function_names: Some(vec![" ".to_string()]) };
    assert_eq!(
        message_of(validate_function_calling_config(&blank)),
        "Required field 'allowed_function_names[0]' is missing or empty in FunctionCallingConfig"
    );
    let many = FunctionCallingConfig { mode: None, allowed_function_names: Some(vec!["f".to_string(); 101]) };
    assert_eq!(
        message_of(validate_function_calling_config(&many)),
        "Collection 'allowed_function_names' has 101 items, exceeding maximum of 100"
    );
}

#[test]
fn code_execution_timeouts_are_bounded() {
    assert!(validate_code_execution_config(&CodeExecutionConfig { timeout: Some(300), enable_network: None }).is_ok());
    assert!(validate_code_execution_config(&CodeExecutionConfig { timeout: None, enable_network: Some(true) }).is_ok());
    assert_eq!(
        message_of(validate_code_execution_config(&CodeExecutionConfig { timeout: Some(301), enable_network: None })),
        "Value 301 for field 'timeout' is not between 1 and 300"
    );
    let tool = CodeExecutionTool { config: Some(CodeExecutionConfig { timeout: Some(0), enable_network: None }) };
    assert_eq!(
        message_of(validate_code_execution_tool(&tool)),
        "Invalid value 'CodeExecutionConfig' for field 'config': Value 0 for field 'timeout' is not between 1 and 300"
    );
}

#[test]
fn tuning_examples_need_input_or_output() {
    let none = TuningExample { text_input: Some("  ".to_string()), output: None };
    assert_eq!(
        message_of(validate_tuning_example(&none)),
        "Required field 'text_input_or_output' is missing or empty in TuningExample must have at least text_input or output"
    );
    let only_output = TuningExample { text_input: None, output: Some("answer".to_string()) };
    assert!(validate_tuning_example(&only_output).is_ok());
}

#[test]
fn templates_carry_their_sampling_parameters() {
    let chat = RequestTemplate::chat().build();
    let g = chat.generation_config.unwrap();
    assert_eq!(g.temperature, Some(0.9f32.to_bits()));
    assert_eq!(g.max_output_tokens, Some(2048));
    let code = RequestTemplate::code_generation().build().generation_config.unwrap();
    assert_eq!(code.temperature, Some(0.2f32.to_bits()));
    let creative = RequestTemplate::creative_writing().build().generation_config.unwrap();
    assert_eq!(creative.temperature, Some(1.2f32.to_bits()));
    assert_eq!(creative.top_p, Some(0.95f32.to_bits()));
    let qa = RequestTemplate::factual_qa().build().generation_config.unwrap();
    assert_eq!(qa.temperature, Some(0.1f32.to_bits()));
    let summary = RequestTemplate::summarization().build().generation_config.unwrap();
    assert_eq!(summary.temperature, Some(0.3f32.to_bits()));
}

#[test]
fn template_builders_change_one_thing() {
    let r = RequestTemplate::summarization()
        .with_prompt("Summarise this")
        .with_temperature(0.5f32.to_bits())
        .with_max_tokens(10)
        .build();
    assert_eq!(r.contents.len(), 1);
    assert_eq!(r.contents[0].role, "user");
    assert_eq!(r.contents[0].parts[0].text.as_deref(), Some("Summarise this"));
    let g = r.generation_config.unwrap();
    assert_eq!(g.temperature, Some(0.5f32.to_bits()));
    assert_eq!(g.max_output_tokens, Some(10));
}

#[test]
fn websocket_config_rules() {
    let d = WebSocketConfig::default_config();
    assert_eq!(d.heartbeat_interval, 30_000_000_000);
    assert_eq!(d.max_message_size, 1048576);
    match WebSocketConfig::builder().max_message_size(5 * 1024 * 1024 + 1).build() {
        Err(Error::ConfigurationError(m)) => assert_eq!(m, "Max message size cannot exceed 5MB"),
        _ => panic!("oversized messages are refused"),
    }
    match WebSocketConfig::builder().reconnect_attempts(0).build() {
        Err(Error::ConfigurationError(m)) => assert_eq!(m, "Reconnect attempts must be greater than 0"),
        _ => panic!("zero reconnect attempts are refused"),
    }
    assert!(WebSocketConfig::builder().max_message_size(5 * 1024 * 1024).build().is_ok());
}

#[test]
fn websocket_connection_lifecycle() {
    let (mut c, announced) = WebSocketConnection::connect(WebSocketConfig::default_config());
    assert_eq!(announced, vec![WebSocketConnectionState::Connecting, WebSocketConnectionState::Connected]);
    assert!(c.is_connected());
    assert!(c.send_message().is_ok());
    c.record_received();
    let m = c.get_metrics();
    assert_eq!(m.messages_sent, 1);
    assert_eq!(m.messages_received, 1);
    assert_eq!(m.connection_count, 1);
    let (closed, states) = c.close();
    assert!(closed.is_err());
    assert_eq!(states, vec![WebSocketConnectionState::Closing]);
    assert_eq!(c.state(), WebSocketConnectionState::Closing);
    match c.send_message() {
        Err(Error::ApiError(m)) => assert_eq!(m, "WebSocket is not connected"),
        _ => panic!("a closing connection does not send"),
    }
}

#[test]
fn stream_builder_needs_an_endpoint() {
    match WebSocketStreamBuilder::new().prepare() {
        Err(Error::InvalidArgument(m)) => assert_eq!(m, "Endpoint is required"),
        _ => panic!("an endpoint is required"),
    }
    let p = WebSocketStreamBuilder::new()
        .endpoint("wss://example")
        .direction(StreamDirection::Outbound)
        .auth_token("tok")
        .metadata("a", "1")
        .metadata("a", "2")
        .prepare()
        .unwrap();
    assert_eq!(p.endpoint, "wss://example");
    match p.auth_message {
        Some(WebSocketStreamMessage::Auth { token, scope }) => {
            assert_eq!(token, "tok");
            assert!(scope.is_none());
        }
        _ => panic!("a token yields an authentication message"),
    }
    let b = WebSocketStreamBuilder::new().metadata("a", "1").metadata("b", "2").metadata("a", "3");
    assert_eq!(b.metadata.len(), 2);
    assert!(b.metadata.contains(&("a".to_string(), "3".to_string())));
}
