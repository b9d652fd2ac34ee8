use api_gemini::auto_scaling::{ResourceConfig, ResourceConfigBuilder, ScalingConfig, ScalingConfigBuilder, ScalingDecision};
use api_gemini::batch::{
    content_failure_message, empty_contents_error, empty_prompts_error, empty_texts_error, prompt_failure_message,
    text_failure_message, BatchProgress,
};
use api_gemini::chat::{can_add_system, can_build, valid_penalty, valid_temperature, valid_top_p, ChatCompletionRequestBuilder};
use api_gemini::client::Client;
use api_gemini::error::Error;
use api_gemini::float_bits::{f32_bits_le, f64_bits_eq, f64_bits_le, f64_bits_lt};
use api_gemini::media::{
    compress_data, is_image_type, should_compress, validate_file_format, MediaCacheStats, MediaProcessingMetrics,
    ThumbnailConfig, ThumbnailFormat, ThumbnailGenerator,
};
use api_gemini::model_tuning::{
    HyperparameterConfig, HyperparameterConfigBuilder, LoRAConfig, LoRAConfigBuilder, TrainingJob, TrainingJobState,
};
use api_gemini::retry::{attempt_limit_error, is_transient_error};
use api_gemini::semantic_retrieval::{CacheWarmingStrategy, OptimizedIndexType, OptimizedRetrievalConfig, SemanticRetrievalConfig};
use api_gemini::websocket_optimized::{
    ConnectionPoolConfig, MessageSerializerType, OptimizedConnectionPool, OptimizedWebSocketConfig,
    OptimizedWebSocketConnection, OptimizedWebSocketStreamingApi, SerializationFormat,
};

fn config_error(r: Result<(), Error>) -> String {
    match r {
        Err(Error::ConfigurationError(m)) => m,
        _ => panic!("expected a configuration error"),
    }
}

#[test]
fn float_order_matches_f64() {
    let values = [0.0f64, -0.0, 1.0, -1.0, 2.5, -2.5, 10.0, f64::INFINITY, f64::NEG_INFINITY, f64::NAN, 1e-300, -1e-300];
    for a in values {
        for b in values {
            assert_eq!(f64_bits_lt(a.to_bits(), b.to_bits()), a < b, "{a} < {b}");
            assert_eq!(f64_bits_le(a.to_bits(), b.to_bits()), a <= b, "{a} <= {b}");
            assert_eq!(f64_bits_eq(a.to_bits(), b.to_bits()), a == b, "{a} == {b}");
        }
    }
    let values32 = [0.0f32, -0.0, 1.0, -2.0, 2.0, 0.5, f32::NAN, f32::INFINITY];
    for a in values32 {
        for b in values32 {
            assert_eq!(f32_bits_le(a.to_bits(), b.to_bits()), a <= b, "{a} <= {b}");
        }
    }
}

#[test]
fn hyperparameters_default_and_validation() {
    let h = HyperparameterConfig::default_config();
    assert_eq!(h.learning_rate, 0.0001f64.to_bits());
    assert_eq!(h.batch_size, 16);
    assert_eq!(h.epochs, 3);
    assert_eq!(h.warmup_steps, 50);
    assert_eq!(h.weight_decay, 0.01f64.to_bits());
    assert_eq!(h.gradient_clip_norm, 1.0f64.to_bits());
    assert_eq!(h.scheduler, "cosine");
    assert_eq!(h.optimizer, "adamw");
    let msg = |r: Result<HyperparameterConfig, Error>| config_error(r.map(|_| ()));
    assert_eq!(msg(HyperparameterConfigBuilder::new().learning_rate(0.0f64.to_bits()).build()), "Learning rate must be positive");
    assert_eq!(msg(HyperparameterConfigBuilder::new().batch_size(0).build()), "Batch size must be greater than 0");
    assert_eq!(msg(HyperparameterConfigBuilder::new().epochs(0).build()), "Epochs must be greater than 0");
    assert_eq!(msg(HyperparameterConfigBuilder::new().weight_decay((-0.1f64).to_bits()).build()), "Weight decay must be non-negative");
    assert_eq!(msg(HyperparameterConfigBuilder::new().gradient_clip_norm((-1.0f64).to_bits()).build()), "Gradient clip norm must be positive");
    assert!(HyperparameterConfigBuilder::new().learning_rate(f64::NAN.to_bits()).build().is_ok());
    let ok = HyperparameterConfigBuilder::new().scheduler("linear").optimizer("sgd").warmup_steps(0).build().unwrap();
    assert_eq!(ok.scheduler, "linear");
    assert_eq!(ok.optimizer, "sgd");
}

#[test]
fn lora_default_and_validation() {
    let l = LoRAConfig::default_config();
    assert_eq!(l.rank, 8);
    assert_eq!(l.alpha, 16.0f64.to_bits());
    assert_eq!(l.dropout, 0.1f64.to_bits());
    assert_eq!(l.target_modules, vec!["query".to_string(), "value".to_string()]);
    assert!(!l.merge_weights);
    let msg = |r: Result<LoRAConfig, Error>| config_error(r.map(|_| ()));
    assert_eq!(msg(LoRAConfigBuilder::new().rank(0).build()), "LoRA rank must be greater than 0");
    assert_eq!(msg(LoRAConfigBuilder::new().alpha(0.0f64.to_bits()).build()), "LoRA alpha must be positive");
    assert_eq!(msg(LoRAConfigBuilder::new().dropout(1.0f64.to_bits()).build()), "LoRA dropout must be between 0.0 and 1.0");
    assert_eq!(msg(LoRAConfigBuilder::new().dropout((-0.01f64).to_bits()).build()), "LoRA dropout must be between 0.0 and 1.0");
    assert_eq!(msg(LoRAConfigBuilder::new().target_modules(Vec::new()).build()), "LoRA target modules cannot be empty");
    assert!(LoRAConfigBuilder::new().dropout(0.0f64.to_bits()).merge_weights(true).build().is_ok());
}

#[test]
fn training_job_state_machine() {
    let mut job = TrainingJob::new("job".to_string(), HyperparameterConfig::default_config());
    assert_eq!(job.state(), TrainingJobState::Pending);
    assert!(matches!(job.resume(), Err(Error::ApiError(m)) if m == "Cannot resume job in state : Pending"));
    job.start().unwrap();
    assert_eq!(job.state(), TrainingJobState::Running);
    job.pause().unwrap();
    assert_eq!(job.state(), TrainingJobState::Paused);
    job.resume().unwrap();
    assert_eq!(job.state(), TrainingJobState::Running);
    job.cancel().unwrap();
    assert_eq!(job.state(), TrainingJobState::Cancelled);
    assert!(matches!(job.resume(), Err(Error::ApiError(m)) if m == "Cannot resume job in state : Cancelled"));
    assert_eq!(job.get_metrics().step, 0);
    assert!(job.get_checkpoints().is_empty());
}

#[test]
fn fine_tuning_needs_training_data() {
    let client = Client::new("key".to_string(), "https://x".to_string());
    let models = client.models();
    let model = models.by_name("gemini-pro");
    let r = model.fine_tune().with_epochs(5).start_training();
    assert!(matches!(r, Err(Error::ApiError(m)) if m == "Training data is required for fine-tuning"));
    let job = model.fine_tune().with_training_data("data.jsonl").with_epochs(5).start_training().unwrap();
    assert_eq!(job.job_id, "tuning-generated-id");
    assert_eq!(job.state(), TrainingJobState::Running);
    assert_eq!(job.config.epochs, 5);
}

#[test]
fn scaling_and_resource_validation() {
    let s = ScalingConfig::default_config();
    assert_eq!((s.min_instances, s.max_instances), (1, 3));
    assert_eq!(s.target_cpu_utilization, 70.0f64.to_bits());
    assert_eq!(s.target_memory_utilization, 80.0f64.to_bits());
    assert_eq!(s.scale_up_cooldown, 300_000_000_000);
    let msg = |r: Result<ScalingConfig, Error>| config_error(r.map(|_| ()));
    assert_eq!(msg(ScalingConfigBuilder::new().min_instances(0).build()), "Minimum instances must be greater than 0");
    assert_eq!(
        msg(ScalingConfigBuilder::new().min_instances(4).build()),
        "Maximum instances must be greater than or equal to minimum instances"
    );
    assert_eq!(
        msg(ScalingConfigBuilder::new().target_cpu_utilization(100.5f64.to_bits()).build()),
        "Target CPU utilization must be between 0 and 100"
    );
    assert_eq!(
        msg(ScalingConfigBuilder::new().target_memory_utilization(0.0f64.to_bits()).build()),
        "Target memory utilization must be between 0 and 100"
    );
    assert!(ScalingConfigBuilder::new().target_cpu_utilization(100.0f64.to_bits()).build().is_ok());
    let r = ResourceConfig::default_config();
    assert_eq!(r.cpu_cores, 1.0f64.to_bits());
    assert_eq!(r.storage_gb, 10.0f64.to_bits());
    let msg = |r: Result<ResourceConfig, Error>| config_error(r.map(|_| ()));
    assert_eq!(msg(ResourceConfigBuilder::new().cpu_cores(0.0f64.to_bits()).build()), "CPU cores must be greater than 0");
    assert_eq!(msg(ResourceConfigBuilder::new().memory_gb((-1.0f64).to_bits()).build()), "Memory must be greater than 0");
    let d = ScalingDecision::ScaleUp { target_instances: 2, reason: "load".to_string() };
    assert!(matches!(d, ScalingDecision::ScaleUp { target_instances: 2, .. }));
}

#[test]
fn batch_failure_counts_every_item() {
    let mut p = BatchProgress::begin(4, empty_texts_error()).unwrap();
    assert_eq!(p.next_index(), Some(0));
    let first = p.failure(Error::NetworkError("down".to_string()), "unused".to_string());
    assert!(matches!(first, Error::NetworkError(m) if m == "down"));
    p.record_success();
    p.record_success();
    assert_eq!(p.next_index(), Some(2));
    let msg = text_failure_message("third", "boom");
    assert_eq!(msg, "Batch processing failed on text 'third': boom");
    match p.failure(Error::ServerError("boom".to_string()), msg) {
        Error::BatchProcessingError { successful, failed, message } => {
            assert_eq!(successful, 2);
            assert_eq!(failed, 2);
            assert_eq!(message, "Batch processing failed on text 'third': boom");
        },
        _ => panic!("expected a batch error"),
    }
    p.record_success();
    p.record_success();
    assert_eq!(p.next_index(), None);
}

#[test]
fn empty_batches_are_refused() {
    assert!(matches!(BatchProgress::begin(0, empty_texts_error()), Err(Error::ValidationError { message }) if message == "Cannot process empty text list"));
    assert!(matches!(empty_contents_error(), Error::ValidationError { message } if message == "Cannot process empty content list"));
    assert!(matches!(empty_prompts_error(), Error::ValidationError { message } if message == "Cannot process empty prompt list"));
    assert_eq!(content_failure_message("x"), "Batch processing failed on content : x");
    assert_eq!(prompt_failure_message("p", "x"), "Batch processing failed on prompt 'p': x");
}

#[test]
fn retry_classification() {
    let transient = [
        Error::ApiError("HTTP 429 Too Many Requests".to_string()),
        Error::ApiError("Rate limit hit".to_string()),
        Error::ApiError("status 503".to_string()),
        Error::ApiError("request timeout".to_string()),
        Error::ServerError("anything".to_string()),
        Error::NetworkError("anything".to_string()),
    ];
    for e in &transient {
        assert!(is_transient_error(e), "{e:?}");
    }
    let permanent = [
        Error::ApiError("HTTP 400 bad request".to_string()),
        Error::AuthenticationError("bad key".to_string()),
        Error::InvalidArgument("429".to_string()),
        Error::RateLimitError("slow down".to_string()),
    ];
    for e in &permanent {
        assert!(!is_transient_error(e), "{e:?}");
    }
    assert!(attempt_limit_error(2, 3).is_none());
    assert!(matches!(attempt_limit_error(3, 3), Some(Error::ApiError(m)) if m == "Maximum retry attempts (3) exceeded"));
    assert!(matches!(attempt_limit_error(0, 0), Some(Error::ApiError(m)) if m == "Maximum retry attempts (0) exceeded"));
}

#[test]
fn chat_builder_builds_requests() {
    let req = ChatCompletionRequestBuilder::new()
        .system("be brief")
        .user("hi")
        .assistant("hello")
        .max_tokens(100)
        .temperature(0.7f32.to_bits())
        .top_p(1.0f32.to_bits())
        .frequency_penalty((-2.0f32).to_bits())
        .presence_penalty(2.0f32.to_bits())
        .stream()
        .build();
    assert_eq!(req.model, "gemini-2.5-flash");
    let roles: Vec<&str> = req.messages.iter().map(|m| m.role.as_str()).collect();
    assert_eq!(roles, vec!["system", "user", "assistant"]);
    assert_eq!(req.max_tokens, Some(100));
    assert_eq!(req.stream, Some(true));
    let b = ChatCompletionRequestBuilder::with_model("m").model("other");
    assert_eq!(b.model, "other");
    assert!(!can_build(&b.messages));
    assert!(can_add_system(&b.messages));
    let b = b.system("s");
    assert!(!can_add_system(&b.messages));
    assert!(valid_temperature(2.0f32.to_bits()));
    assert!(!valid_temperature(2.5f32.to_bits()));
    assert!(!valid_temperature(f32::NAN.to_bits()));
    assert!(valid_top_p(0.0f32.to_bits()));
    assert!(!valid_top_p(1.5f32.to_bits()));
    assert!(valid_penalty((-2.0f32).to_bits()));
    assert!(!valid_penalty((-2.5f32).to_bits()));
}

#[test]
fn file_signatures_are_checked() {
    assert!(validate_file_format(&[0xFF, 0xD8, 0xFF, 0xE0, 1], "image/jpeg").is_ok());
    assert!(matches!(validate_file_format(&[0x00, 0xD8, 0xFF, 0xE0], "image/jpeg"),
        Err(Error::ApiError(m)) if m == "File signature doesn't match declared MIME type : image/jpeg"));
    assert!(matches!(validate_file_format(&[0x89, 0x50], "image/png"), Err(Error::ApiError(_))));
    assert!(validate_file_format(b"%PDF-1.7", "application/pdf").is_ok());
    assert!(validate_file_format(b"GIF89a", "image/gif").is_ok());
    assert!(matches!(validate_file_format(&[], "text/plain"), Err(Error::ApiError(m)) if m == "Empty file data"));
    assert!(validate_file_format(b"hello", "text/plain").is_ok());
}

#[test]
fn compression_choices_and_image_types() {
    assert!(!should_compress("image/jpeg"));
    assert!(!should_compress("application/gzip"));
    assert!(should_compress("text/plain"));
    assert!(should_compress("image/png"));
    assert!(is_image_type("image/png"));
    assert!(!is_image_type("imag"));
    assert!(!is_image_type("video/mp4"));
}

#[test]
fn run_length_encoding() {
    assert_eq!(compress_data(&[]), Vec::<u8>::new());
    assert_eq!(compress_data(&[7]), vec![7]);
    assert_eq!(compress_data(&[1, 1, 1, 2, 3, 3]), vec![0xFF, 2, 1, 2, 0xFF, 1, 3]);
    let long = vec![9u8; 300];
    assert_eq!(compress_data(&long), vec![0xFF, 255, 9, 0xFF, 43, 9]);
}

#[test]
fn media_counters() {
    let s = MediaCacheStats::new();
    assert_eq!(s.hits + s.misses + s.evictions, 0);
    let mut m = MediaProcessingMetrics::new();
    m.update_memory_watermark(10);
    m.update_memory_watermark(5);
    assert_eq!(m.memory_high_watermark_bytes, 10);
}

#[test]
fn thumbnails_are_placeholders() {
    let cfg = ThumbnailConfig { enabled: true, format: ThumbnailFormat::Png, width: 10, height: 10 };
    let t = ThumbnailGenerator::new(cfg).generate_thumbnail(&[1, 2, 3], "image/png").unwrap();
    assert_eq!(t.len(), 30);
    assert_eq!(&t[..8], &[0x89, 0x50, 0x4E, 0x47, 0x0D, 0x0A, 0x1A, 0x0A]);
    assert!(t[8..].iter().all(|b| *b == 0x80));
    let tiny = ThumbnailConfig { enabled: true, format: ThumbnailFormat::WebP, width: 2, height: 2 };
    assert_eq!(ThumbnailGenerator::new(tiny).create_placeholder_thumbnail("image/webp"), b"R".to_vec());
    let off = ThumbnailConfig { enabled: false, format: ThumbnailFormat::Jpeg, width: 1, height: 1 };
    assert!(matches!(ThumbnailGenerator::new(off).generate_thumbnail(&[], "image/jpeg"),
        Err(Error::ApiError(m)) if m == "Thumbnail generation disabled"));
}

#[test]
fn serializers_report_format_and_compression() {
    let b = MessageSerializerType::BinaryJson { enable_compression: true, compression_level: 6 };
    assert_eq!(b.format_id(), "binary_json");
    assert!(b.supports_compression());
    let m = MessageSerializerType::MessagePack { enable_compression: false };
    assert_eq!(m.format_id(), "messagepack");
    assert!(!m.supports_compression());
    assert_eq!(MessageSerializerType::Json.format_id(), "json");
    assert!(!MessageSerializerType::Json.supports_compression());
}

#[test]
fn optimized_config_defaults() {
    let c = OptimizedWebSocketConfig::default_config();
    assert_eq!(c.pool_config.max_connections_per_endpoint, 10);
    assert_eq!(c.pool_config.max_total_connections, 100);
    assert_eq!(c.message_config.serialization_format, SerializationFormat::BinaryJson);
    assert_eq!(c.message_config.compression_level, 6);
    assert_eq!(c.resource_config.memory_limit_bytes, 512 * 1024 * 1024);
    assert_eq!(c.resource_config.cpu_threshold, 0.8f64.to_bits());
}

#[test]
fn new_connections_get_a_uuid_identifier() {
    let c = OptimizedWebSocketConnection::new("wss://a", OptimizedWebSocketConfig::default_config(), 5).unwrap();
    assert!(c.id.starts_with("ws_opt_"));
    assert_eq!(c.id.len(), 43);
    let d = OptimizedWebSocketConnection::new("wss://a", OptimizedWebSocketConfig::default_config(), 5).unwrap();
    assert_ne!(c.id, d.id);
    assert!(matches!(c.serializer, MessageSerializerType::BinaryJson { enable_compression: true, compression_level: 6 }));
    assert_eq!(c.health_checker.check_interval, 30_000_000_000);
    assert_eq!(c.health_checker.last_heartbeat, Some(5));
}

#[test]
fn pool_reuses_oldest_connection_first() {
    let mut pool = OptimizedConnectionPool::new(OptimizedWebSocketConfig::default_config().pool_config);
    let a = pool.get_connection("wss://a", 0).unwrap();
    let b = pool.get_connection("wss://a", 0).unwrap();
    let c = pool.get_connection("wss://b", 0).unwrap();
    assert_eq!(pool.counts(), (3, 3, 0));
    let (a_id, b_id) = (a.id.clone(), b.id.clone());
    pool.return_connection(a, 10).unwrap();
    pool.return_connection(c, 10).unwrap();
    pool.return_connection(b, 10).unwrap();
    assert_eq!(pool.idle_for("wss://a"), 2);
    let first = pool.get_connection("wss://a", 20).unwrap();
    assert_eq!(first.id, a_id);
    let second = pool.get_connection("wss://a", 20).unwrap();
    assert_eq!(second.id, b_id);
    assert_eq!(pool.counts(), (2, 3, 2));
}

#[test]
fn pool_drops_unhealthy_and_excess_connections() {
    let cfg = ConnectionPoolConfig {
        max_connections_per_endpoint: 1,
        max_total_connections: 5,
        max_idle_time_seconds: 10,
        cleanup_interval_seconds: 1,
        enable_connection_warming: false,
        min_connections_per_endpoint: 0,
    };
    let mut pool = OptimizedConnectionPool::new(cfg);
    let a = pool.get_connection("e", 0).unwrap();
    let b = pool.get_connection("e", 0).unwrap();
    let mut c = pool.get_connection("e", 0).unwrap();
    c.health_checker.is_healthy = false;
    pool.return_connection(a, 0).unwrap();
    pool.return_connection(b, 0).unwrap();
    pool.return_connection(c, 0).unwrap();
    assert_eq!(pool.idle_for("e"), 1);
    assert_eq!(pool.cleanup(5_000_000_000).unwrap(), 0);
    assert_eq!(pool.cleanup(10_000_000_000).unwrap(), 1);
    assert_eq!(pool.idle_for("e"), 0);
}

#[test]
fn exhausted_pool_refuses() {
    let mut cfg = OptimizedWebSocketConfig::default_config().pool_config;
    cfg.max_total_connections = 0;
    let mut pool = OptimizedConnectionPool::new(cfg);
    assert!(matches!(pool.get_connection("e", 0), Err(Error::ServerError(m)) if m == "Connection pool exhausted"));
}

#[test]
fn sending_counts_and_reports_not_implemented() {
    let mut c = OptimizedWebSocketConnection::new("e", OptimizedWebSocketConfig::default_config(), 0).unwrap();
    let r = c.send_serialized(&vec![1, 2, 3]);
    assert!(matches!(r, Err(Error::NotImplemented(m)) if m == "WebSocket send_message not yet implemented"));
    assert_eq!(c.get_metrics().messages_sent, 1);
    assert_eq!(c.get_metrics().bytes_sent, 3);
}

#[test]
fn streaming_api_starts_empty() {
    let client = Client::new("k".to_string(), "https://x".to_string());
    let mut api = OptimizedWebSocketStreamingApi::new(&client);
    assert_eq!(api.get_metrics().total_sessions, 0);
    assert_eq!(api.cleanup_connections(0).unwrap(), 0);
}

#[test]
fn retrieval_defaults() {
    let b = SemanticRetrievalConfig::default_config();
    assert_eq!((b.timeout_seconds, b.max_results), (30, 10));
    let c = OptimizedRetrievalConfig::default_config();
    assert_eq!(c.index_type, OptimizedIndexType::OptimizedFlat { dimensions: 1536 });
    assert_eq!(c.cache_config.capacity, 10000);
    assert_eq!(c.cache_config.ttl_seconds, Some(3600));
    assert_eq!(c.cache_config.warming_strategy, CacheWarmingStrategy::CommonQueries);
    assert_eq!(c.search_config.search_timeout_ms, 5000);
    assert_eq!(c.monitoring_config.max_metrics_history, 1000);
}
