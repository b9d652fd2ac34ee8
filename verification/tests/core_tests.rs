use api_gemini::client::{clean_model_id, Client, ModelApi, ModelsApi};
use api_gemini::error::Error;
use api_gemini::validation::{validate_tuned_model_id, validate_whole_in_range, ValidationError};
use api_gemini::failover::{
    endpoint_health_from_probe, EndpointHealth, FailoverBuilder, FailoverConfig, FailoverConfigBuilder,
    FailoverStrategy, HealthStatus, ProbeOutcome,
};
use api_gemini::streaming_control::control::{StreamController, StreamStep};
use api_gemini::streaming_control::{BufferStrategy, MetricsLevel, StreamBuffer, StreamControlConfig, StreamState};
use api_gemini::text::{
    contains_substring, i64_to_decimal, is_blank, only_ident_chars, text_eq, u64_to_decimal, u64_to_lower_hex,
};

fn chunked_config(chunk: usize, max_buffered: usize) -> StreamControlConfig {
    StreamControlConfig::builder()
        .buffer_strategy(BufferStrategy::Chunked { chunk_size: chunk })
        .max_buffered_chunks(max_buffered)
        .build()
        .unwrap()
}

fn deliver_value(step: StreamStep<u32>) -> Option<u32> {
    match step {
        StreamStep::Deliver(Ok(v)) => Some(v),
        _ => None,
    }
}

#[test]
fn blank_and_substring_checks() {
    assert!(is_blank(""));
    assert!(is_blank(" \t\n "));
    assert!(!is_blank("  a "));
    assert!(contains_substring("server returned 404", "404"));
    assert!(contains_substring("abc", ""));
    assert!(!contains_substring("ab", "abc"));
    assert!(text_eq("same", "same"));
    assert!(!text_eq("same", "Same"));
    assert!(only_ident_chars("tuned-model_1", "-_"));
    assert!(!only_ident_chars("tuned model", "-_"));
}

#[test]
fn decimal_rendering_matches_std() {
    for n in [0u64, 7, 10, 12345, u64::MAX] {
        assert_eq!(u64_to_decimal(n), n.to_string());
    }
    for n in [0i64, -1, 42, -9876, i64::MIN, i64::MAX] {
        assert_eq!(i64_to_decimal(n), n.to_string());
    }
}

#[test]
fn stream_state_codes_round_trip() {
    let all = [
        StreamState::Running,
        StreamState::Paused,
        StreamState::Cancelled,
        StreamState::Completed,
        StreamState::TimedOut,
        StreamState::Error,
    ];
    for (i, s) in all.iter().enumerate() {
        assert_eq!(s.to_u8() as usize, i);
        assert_eq!(StreamState::from_u8(s.to_u8()), *s);
    }
    assert_eq!(StreamState::from_u8(200), StreamState::Error);
    assert_eq!(StreamState::TimedOut.name(), "TimedOut");
}

#[test]
fn stream_config_defaults_and_validation() {
    let c = StreamControlConfig::default_config();
    assert_eq!(c.buffer_size, 1048576);
    assert_eq!(c.pause_timeout, 300_000_000_000);
    assert_eq!(c.max_buffered_chunks, 100);
    assert_eq!(c.control_operation_timeout, 100_000_000);
    assert!(c.event_driven_timeouts);
    match StreamControlConfig::builder().buffer_size(0).build() {
        Err(Error::ConfigurationError(m)) => assert_eq!(m, "Buffer size must be greater than 0"),
        _ => panic!("expected a configuration error"),
    }
    match StreamControlConfig::builder().buffer_size(4).buffer_strategy(BufferStrategy::Chunked { chunk_size: 8 }).build() {
        Err(Error::ConfigurationError(m)) => assert_eq!(m, "Chunked buffer strategy chunk size cannot exceed total buffer size"),
        _ => panic!("expected a configuration error"),
    }
    match StreamControlConfig::builder().buffer_strategy(BufferStrategy::Chunked { chunk_size: 0 }).build() {
        Err(Error::ConfigurationError(m)) => assert_eq!(m, "Chunked buffer strategy chunk size must be greater than 0"),
        _ => panic!("expected a configuration error"),
    }
}

#[test]
fn pause_then_resume_delivers_held_items_in_order() {
    for strategy in [BufferStrategy::Vector, BufferStrategy::Circular, BufferStrategy::Chunked { chunk_size: 2 }] {
        let config = StreamControlConfig::builder().buffer_strategy(strategy).build().unwrap();
        let mut c: StreamController<u32> = StreamController::new(config);
        assert_eq!(deliver_value(c.on_item(Ok(1))), Some(1));
        assert!(c.pause(5, 1_000).is_ok());
        assert!(c.is_paused());
        for v in [2u32, 3, 4, 5, 6] {
            assert!(matches!(c.on_item(Ok(v)), StreamStep::Continue));
        }
        let held = c.begin_resume().ok().unwrap();
        let values: Vec<u32> = held.into_iter().map(|r| r.ok().unwrap()).collect();
        assert_eq!(values, vec![2, 3, 4, 5, 6]);
        c.finish_resume(5);
        assert_eq!(c.get_state(), StreamState::Running);
        let m = c.get_metrics();
        assert_eq!(m.pause_count, 1);
        assert_eq!(m.resume_count, 1);
        assert_eq!(m.peak_buffer_size, 5);
        assert_eq!(m.buffer_size, 0);
        assert_eq!(m.total_chunks, 1);
    }
}

#[test]
fn refused_commands_report_the_state() {
    let mut c: StreamController<u32> = StreamController::new(StreamControlConfig::default_config());
    match c.begin_resume() {
        Err(Error::ApiError(m)) => assert_eq!(m, "Cannot resume stream in state : Running"),
        _ => panic!("resume of a running stream must be refused"),
    }
    c.pause(0, 10).unwrap();
    match c.pause(0, 11) {
        Err(Error::ApiError(m)) => assert_eq!(m, "Cannot pause stream in state : Paused"),
        _ => panic!("second pause must be refused"),
    }
}

#[test]
fn overflowing_the_pause_buffer_cancels() {
    let mut c: StreamController<u32> = StreamController::new(chunked_config(1, 2));
    c.pause(0, 0).unwrap();
    assert!(matches!(c.on_item(Ok(1)), StreamStep::Continue));
    assert!(matches!(c.on_item(Ok(2)), StreamStep::Continue));
    assert!(matches!(c.on_item(Ok(3)), StreamStep::Stop));
    assert_eq!(c.get_state(), StreamState::Cancelled);
    assert!(c.is_cancelled());
    assert_eq!(c.get_metrics().buffer_overflows, 1);
}

#[test]
fn errors_and_end_of_stream_stop_the_task() {
    let mut c: StreamController<u32> = StreamController::new(StreamControlConfig::default_config());
    match c.on_item(Err(Error::NetworkError("reset".to_string()))) {
        StreamStep::DeliverAndStop(Err(Error::NetworkError(m))) => assert_eq!(m, "reset"),
        _ => panic!("an error while running is delivered and ends the task"),
    }
    assert_eq!(c.get_state(), StreamState::Error);
    let mut d: StreamController<u32> = StreamController::new(StreamControlConfig::default_config());
    d.on_end();
    assert_eq!(d.get_state(), StreamState::Completed);
    let mut e: StreamController<u32> = StreamController::new(StreamControlConfig::default_config());
    e.cancel(3);
    assert!(e.is_cancelled());
}

#[test]
fn polling_times_out_a_long_pause() {
    let config = StreamControlConfig::builder().pause_timeout(1_000).event_driven_timeouts(false).build().unwrap();
    let mut c: StreamController<u32> = StreamController::new(config);
    c.pause(0, 5_000).unwrap();
    assert!(!c.on_poll(5_900));
    assert!(!c.on_poll(6_000));
    assert!(c.on_poll(6_001));
    assert_eq!(c.get_state(), StreamState::TimedOut);
}

#[test]
fn disabled_metrics_stay_zero() {
    let config = StreamControlConfig::builder().metrics_level(MetricsLevel::Disabled).build().unwrap();
    let mut c: StreamController<u32> = StreamController::new(config);
    c.on_item(Ok(1));
    c.pause(1, 1).unwrap();
    let m = c.get_metrics();
    assert_eq!(m.total_chunks, 0);
    assert_eq!(m.pause_count, 0);
}

#[test]
fn detailed_metrics_average_response_times() {
    let config = StreamControlConfig::builder().metrics_level(MetricsLevel::Detailed).build().unwrap();
    let mut c: StreamController<u32> = StreamController::new(config);
    c.pause(100, 0).unwrap();
    c.begin_resume().ok().unwrap();
    c.finish_resume(300);
    let m = c.get_metrics();
    assert_eq!(m.control_operations, 2);
    assert_eq!(m.avg_control_response_time_us, 120);
}

fn failover_config(strategy: FailoverStrategy) -> FailoverConfig {
    FailoverConfigBuilder::new()
        .primary_endpoint("https://primary".to_string())
        .backup_endpoint("https://b1".to_string())
        .backup_endpoint("https://b2".to_string())
        .backup_endpoint("https://b3".to_string())
        .strategy(strategy)
        .build()
        .unwrap()
}

#[test]
fn failover_config_validation() {
    let d = FailoverConfig::default_config();
    assert_eq!(d.primary_endpoint, "https://generativelanguage.googleapis.com");
    assert_eq!(d.timeout, 5_000_000_000);
    assert_eq!(d.max_retries, 3);
    match FailoverConfig::builder().build() {
        Err(Error::ConfigurationError(m)) => assert_eq!(m, "At least one backup endpoint is required for failover"),
        _ => panic!("a configuration without backups is refused"),
    }
    match FailoverConfig::builder().backup_endpoint("b".to_string()).max_retries(51).build() {
        Err(Error::ConfigurationError(m)) => assert_eq!(m, "Max retries cannot exceed 50"),
        _ => panic!("too many retries are refused"),
    }
    match FailoverConfig::builder().backup_endpoint("b".to_string()).max_retries(u32::MAX).build() {
        Err(Error::ConfigurationError(m)) => assert_eq!(m, "Max retries cannot exceed 50"),
        _ => panic!("too many retries are refused"),
    }
    assert_eq!(FailoverConfig::builder().backup_endpoint("b".to_string()).max_retries(50).build().unwrap().max_retries, 50);
    match FailoverConfig::builder().backup_endpoint("b".to_string()).max_retries(0).build() {
        Err(Error::ConfigurationError(m)) => assert_eq!(m, "Max retries must be at least 1"),
        _ => panic!("zero retries are refused"),
    }
    match FailoverConfig::builder().primary_endpoint(String::new()).build() {
        Err(Error::ConfigurationError(m)) => assert_eq!(m, "Primary endpoint cannot be empty"),
        _ => panic!("an empty primary is refused"),
    }
    match FailoverConfig::builder().backup_endpoint("b".to_string()).timeout(0).build() {
        Err(Error::ConfigurationError(m)) => assert_eq!(m, "Timeout cannot be zero"),
        _ => panic!("a zero timeout is refused"),
    }
}

#[test]
fn round_robin_cycles_through_backups() {
    let client = Client::new("key".to_string(), "https://primary".to_string());
    let mut m = FailoverBuilder::new(client).configure(failover_config(FailoverStrategy::RoundRobin));
    let picks: Vec<String> = (0..7).map(|_| m.get_next_endpoint().unwrap()).collect();
    assert_eq!(picks, vec!["https://b1", "https://b2", "https://b3", "https://b1", "https://b2", "https://b3", "https://b1"]);
}

#[test]
fn priority_always_picks_first_backup_and_counts_failovers() {
    let client = Client::new("key".to_string(), "https://primary".to_string());
    let mut m = FailoverBuilder::new(client).configure(failover_config(FailoverStrategy::Priority));
    for _ in 0..3 {
        let c = m.switch_to_backup().unwrap();
        assert_eq!(c.base_url, "https://b1");
        assert_eq!(c.api_key, "key");
    }
    let metrics = m.get_metrics();
    assert_eq!(metrics.failover_count, 3);
    assert_eq!(metrics.active_endpoint, "https://b1");
    assert_eq!(metrics.total_endpoints, 4);
}

#[test]
fn switching_without_backups_fails() {
    let client = Client::new("key".to_string(), "https://primary".to_string());
    let mut config = FailoverConfig::default_config();
    config.backup_endpoints.clear();
    let mut m = FailoverBuilder::new(client).configure(config);
    match m.switch_to_backup() {
        Err(Error::ConfigurationError(msg)) => assert_eq!(msg, "No backup endpoints configured"),
        _ => panic!("no backup to switch to"),
    }
    match m.get_next_healthy_endpoint() {
        Err(Error::ConfigurationError(msg)) => assert_eq!(msg, "No backup endpoints available"),
        _ => panic!("no backup to recommend"),
    }
}

#[test]
fn probe_outcomes_become_health_records() {
    let ok = endpoint_health_from_probe("https://b1", 77, ProbeOutcome::Response { status_code: 204, elapsed: Some(12) });
    assert_eq!(ok.status, HealthStatus::Healthy);
    assert_eq!(ok.response_time, Some(12));
    assert_eq!(ok.consecutive_failures, 0);
    assert_eq!(ok.last_check, 77);
    let redirect = endpoint_health_from_probe("https://b1", 1, ProbeOutcome::Response { status_code: 399, elapsed: None });
    assert_eq!(redirect.status, HealthStatus::Healthy);
    let bad = endpoint_health_from_probe("https://b1", 1, ProbeOutcome::Response { status_code: 503, elapsed: Some(3) });
    assert_eq!(bad.status, HealthStatus::Unhealthy);
    assert_eq!(bad.response_time, None);
    assert_eq!(bad.consecutive_failures, 1);
    let failed = endpoint_health_from_probe("https://b1", 1, ProbeOutcome::Failed);
    assert_eq!(failed.status, HealthStatus::Unhealthy);
}

fn health(endpoint: &str, healthy: bool) -> EndpointHealth {
    let outcome = if healthy { ProbeOutcome::Response { status_code: 200, elapsed: Some(1) } } else { ProbeOutcome::Failed };
    endpoint_health_from_probe(endpoint, 0, outcome)
}

#[test]
fn health_check_recommends_first_backup_when_primary_is_down() {
    let client = Client::new("key".to_string(), "https://primary".to_string());
    let mut m = FailoverBuilder::new(client).configure(failover_config(FailoverStrategy::Priority));
    let r = m.check_endpoint_health(health("https://primary", false), vec![health("https://b1", false), health("https://b2", true)]);
    assert!(!r.primary_healthy);
    assert!(r.backup_available);
    assert_eq!(r.recommended_endpoint, Some("https://b1".to_string()));
    assert_eq!(r.endpoint_health.len(), 3);
    let r2 = m.check_endpoint_health(health("https://primary", true), vec![health("https://b1", true)]);
    assert!(r2.primary_healthy);
    assert_eq!(r2.recommended_endpoint, None);
    let metrics = m.get_metrics();
    assert_eq!(metrics.endpoint_health.len(), 3);
    let primary = metrics.endpoint_health.iter().find(|h| h.endpoint == "https://primary").unwrap();
    assert_eq!(primary.status, HealthStatus::Healthy);
}

#[test]
fn model_ids_and_urls() {
    assert_eq!(clean_model_id("models/gemini-pro"), "gemini-pro");
    assert_eq!(clean_model_id("gemini-pro"), "gemini-pro");
    assert_eq!(clean_model_id("models"), "models");
    let client = Client::new("k".to_string(), "https://api".to_string());
    let models: ModelsApi<'_> = client.models();
    assert_eq!(models.get_url("models/gemini-pro").unwrap(), "https://api/v1beta/models/gemini-pro");
    match models.get_url("models/") {
        Err(Error::InvalidArgument(m)) => assert_eq!(m, "Model ID cannot be empty. Please provide a valid model identifier."),
        _ => panic!("an empty id is refused"),
    }
    let handle = models.by_name("  ");
    assert!(handle.validate_model_id().is_err());
    assert!(models.by_name("gemini").validate_model_id().is_ok());
}

#[test]
fn get_errors_are_enriched() {
    match ModelsApi::enhance_get_error("x", Error::ServerError("HTTP 404".to_string())) {
        Error::InvalidArgument(m) => assert_eq!(
            m,
            "Model 'x' not found. Please check the model ID and try again. Use models().list() to see available models."
        ),
        _ => panic!("a missing model becomes an invalid argument"),
    }
    match ModelsApi::enhance_get_error("x", Error::ServerError("boom".to_string())) {
        Error::ServerError(m) => assert_eq!(m, "Gemini API server error for model 'x': boom"),
        _ => panic!("other server errors stay server errors"),
    }
    match ModelsApi::enhance_list_error(Error::AuthenticationError("bad key".to_string())) {
        Error::AuthenticationError(m) => assert_eq!(m, "Authentication failed while listing models : bad key. Please verify your API key."),
        _ => panic!("authentication errors keep their variant"),
    }
    match ModelsApi::enhance_list_error(Error::RateLimitError("slow down".to_string())) {
        Error::RateLimitError(m) => assert_eq!(m, "slow down"),
        _ => panic!("other errors pass unchanged"),
    }
}

#[test]
fn streaming_request_url_and_failures() {
    let client = Client::new("k".to_string(), "https://api".to_string());
    let models = client.models();
    let model = models.by_name("gemini-pro");
    assert_eq!(model.streaming_url(), "https://api/v1beta/models/gemini-pro:streamGenerateContent");
    match api_gemini::client::ModelApi::streaming_failure(429, "429 Too Many Requests", "slow") {
        Error::ApiError(m) => assert_eq!(m, "Rate limit exceeded for streaming requests. Please reduce request frequency. Details : slow"),
        _ => panic!("streaming failures are API errors"),
    }
    match api_gemini::client::ModelApi::streaming_failure(503, "503 Service Unavailable", "down") {
        Error::ApiError(m) => assert_eq!(
            m,
            "Server error during streaming request (503 Service Unavailable). This may be temporary - please retry. Details : down"
        ),
        _ => panic!("streaming failures are API errors"),
    }
    match api_gemini::client::ModelApi::streaming_failure(404, "404 Not Found", "none") {
        Error::ApiError(m) => assert_eq!(m, "Streaming request failed with HTTP 404 Not Found. Details : none"),
        _ => panic!("streaming failures are API errors"),
    }
}

#[test]
fn defaults_match_named_constructors() {
    let f: FailoverConfig = Default::default();
    assert_eq!(f.max_retries, 3);
    let s: StreamControlConfig = Default::default();
    assert_eq!(s.max_buffered_chunks, 100);
    let d: api_gemini::dynamic_config::DynamicConfig = Default::default();
    assert_eq!(d.retry_attempts, 3);
    assert_eq!(d.source_priority, Some(50));
}

#[test]
fn similarity_dimensions_are_checked() {
    assert!(ModelApi::check_similarity_dimensions(3, 3).is_ok());
    match ModelApi::check_similarity_dimensions(3, 12) {
        Err(Error::InvalidArgument(m)) => assert_eq!(m, "Embedding dimensions must match : 3 vs 12"),
        other => panic!("unexpected {:?}", other),
    }
    match ModelApi::check_similarity_dimensions(0, 0) {
        Err(Error::InvalidArgument(m)) => assert_eq!(m, "Cannot compute similarity for empty embeddings"),
        other => panic!("unexpected {:?}", other),
    }
}

#[test]
fn buffers_drain_exactly_what_was_pushed() {
    for strategy in [BufferStrategy::Vector, BufferStrategy::Circular, BufferStrategy::Chunked { chunk_size: 2 }] {
        let mut b: StreamBuffer<u32> = StreamBuffer::new(&strategy, None);
        assert!(b.is_empty());
        for i in 0..5u32 {
            b.push(Ok(i));
            assert_eq!(b.len(), (i + 1) as usize);
        }
        let drained: Vec<u32> = b.drain_all().into_iter().map(|r| r.unwrap()).collect();
        assert_eq!(drained, vec![0, 1, 2, 3, 4]);
        assert_eq!(b.len(), 0);
        assert!(b.is_empty());
        b.push(Ok(9));
        assert_eq!(b.len(), 1);
        let again: Vec<u32> = b.drain_all().into_iter().map(|r| r.unwrap()).collect();
        assert_eq!(again, vec![9]);
    }
}

#[test]
fn unicode_white_space_counts_as_blank() {
    assert!(is_blank("\u{3000}\u{2028}\u{85}\u{A0} \t\r\n"));
    assert!(!is_blank("\u{200B}"));
    assert!(!is_blank("\u{180E}"));
    assert!(!is_blank(" a "));
}

#[test]
fn tuned_model_ids_and_whole_ranges_are_checked() {
    assert!(validate_tuned_model_id("my-model_1").is_ok());
    match validate_tuned_model_id("  ") {
        Err(ValidationError::RequiredFieldMissing { field, context }) => {
            assert_eq!(field, "tuned_model_id");
            assert_eq!(context, "CreateTunedModelRequest");
        }
        _ => panic!("a blank id is refused"),
    }
    match validate_tuned_model_id("bad id!") {
        Err(ValidationError::InvalidFieldValue { field, value, .. }) => {
            assert_eq!(field, "tuned_model_id");
            assert_eq!(value, "bad id!");
        }
        _ => panic!("an id with other characters is refused"),
    }
    assert!(validate_whole_in_range("epoch_count", 100, 1, Some(100)).is_ok());
    assert!(validate_whole_in_range("top_k", 5000, 1, None).is_ok());
    match validate_whole_in_range("epoch_count", 101, 1, Some(100)) {
        Err(ValidationError::ValueOutOfRange { field, value, min, max }) => {
            assert_eq!(field, "epoch_count");
            assert_eq!(value, 101);
            assert_eq!(min, Some(1));
            assert_eq!(max, Some(100));
        }
        _ => panic!("101 epochs are refused"),
    }
    assert!(validate_whole_in_range("top_k", 0, 1, None).is_err());
}

#[test]
fn lower_hex_matches_the_hex_format() {
    for n in [0u64, 9, 10, 15, 16, 255, 4096, 0xdead_beef, u64::MAX] {
        assert_eq!(u64_to_lower_hex(n), format!("{:x}", n));
    }
}

#[test]
fn round_robin_counts_switches_and_selections_alike() {
    let client = Client::new("key".to_string(), "https://primary".to_string());
    let mut m = FailoverBuilder::new(client).configure(failover_config(FailoverStrategy::RoundRobin));
    assert_eq!(m.get_next_endpoint().unwrap(), "https://b1");
    assert_eq!(m.switch_to_backup().unwrap().base_url, "https://b2");
    assert_eq!(m.get_next_endpoint().unwrap(), "https://b3");
    assert_eq!(m.switch_to_backup().unwrap().base_url, "https://b1");
}

#[test]
fn model_method_urls_accept_either_form_of_the_name() {
    let client = Client::new("k".to_string(), "https://api".to_string());
    let models = client.models();
    let plain = models.by_name("gemini-pro");
    let prefixed = models.by_name("models/gemini-pro");
    assert_eq!(prefixed.streaming_url(), "https://api/v1beta/models/gemini-pro:streamGenerateContent");
    assert_eq!(plain.generate_content_url(), "https://api/v1beta/models/gemini-pro:generateContent");
    assert_eq!(prefixed.generate_content_url(), "https://api/v1beta/models/gemini-pro:generateContent");
    assert_eq!(prefixed.count_tokens_url(), "https://api/v1beta/models/gemini-pro:countTokens");
    assert_eq!(plain.embed_content_url(), "https://api/v1beta/models/gemini-pro:embedContent");
    assert_eq!(plain.batch_embed_contents_url(), "https://api/v1beta/models/gemini-pro:batchEmbedContents");
    let empty = api_gemini::types::GenerateContentRequest::empty();
    match plain.prepare_generate_content(&empty) {
        Err(Error::InvalidArgument(m)) => assert_eq!(
            m,
            "Generate content request cannot have empty contents. Please provide at least one content item."
        ),
        _ => panic!("a request without contents is refused"),
    }
    let mut request = api_gemini::types::GenerateContentRequest::empty();
    request.contents.push(api_gemini::types::Content::user_text("hi"));
    assert_eq!(
        prefixed.prepare_generate_content(&request).unwrap(),
        "https://api/v1beta/models/gemini-pro:generateContent"
    );
}

#[test]
fn refused_http_requests_map_to_error_kinds() {
    use_http_failure_cases();
}

fn use_http_failure_cases() {
    match api_gemini::client::http_failure(401, "bad key") {
        Error::AuthenticationError(m) => assert_eq!(m, "HTTP 401: bad key"),
        _ => panic!("401 is an authentication error"),
    }
    assert!(matches!(api_gemini::client::http_failure(403, ""), Error::AuthenticationError(_)));
    assert!(matches!(api_gemini::client::http_failure(429, "slow"), Error::RateLimitError(m) if m == "HTTP 429: slow"));
    assert!(matches!(api_gemini::client::http_failure(503, "down"), Error::ServerError(m) if m == "HTTP 503: down"));
    assert!(matches!(api_gemini::client::http_failure(404, "none"), Error::ApiError(m) if m == "HTTP 404: none"));
}
