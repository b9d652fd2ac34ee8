use api_gemini::client::Client;
use api_gemini::error::Error;
use api_gemini::websocket::{StreamControl, StreamSessionState, WebSocketStreamMessage};
use api_gemini::websocket_api::{EnhancedConnectionResult, EnhancedStreamPlan, WebSocketStreamingApi};
use api_gemini::websocket_optimized::{OptimizedWebSocketConfig, SerializationFormat};
use api_gemini::websocket_sessions::{WebSocketConnectionManager, WebSocketStreamSession};
use api_gemini::websocket_streaming::{WebSocketConfig, WebSocketConnection, WebSocketConnectionState, WebSocketPoolConfig};

fn session(id: &str, created_at: u128) -> WebSocketStreamSession {
    let config = WebSocketConfig::default_config();
    WebSocketStreamSession::new(id.to_string(), WebSocketConnection::new(config), config, created_at)
}

#[test]
fn session_ids_count_up() {
    let mut m = WebSocketConnectionManager::new(WebSocketPoolConfig::default_config());
    assert_eq!(m.next_session_id(), "ws_session_0");
    assert_eq!(m.next_session_id(), "ws_session_1");
    assert_eq!(m.connection_counter, 2);
    m.connection_counter = u64::MAX;
    assert_eq!(m.next_session_id(), "ws_session_18446744073709551615");
    assert_eq!(m.connection_counter, 0);
}

#[test]
fn registered_sessions_are_found_listed_and_removed() {
    let mut m = WebSocketConnectionManager::new(WebSocketPoolConfig::default_config());
    m.insert_session(session("a", 1));
    m.insert_session(session("b", 2));
    assert_eq!(m.list_sessions(), vec!["a".to_string(), "b".to_string()]);
    assert_eq!(m.get_session("b").unwrap().created_at, 2);
    assert!(m.get_session("c").is_none());
    // Registering an identifier again replaces the session.
    m.insert_session(session("a", 9));
    assert_eq!(m.list_sessions().len(), 2);
    assert_eq!(m.get_session("a").unwrap().get_created_at(), 9);
    // Closing the removed session reports the refused closing message.
    match m.remove_session("a") {
        Err(Error::ApiError(msg)) => assert_eq!(msg, "WebSocket is not connected"),
        other => panic!("unexpected {:?}", other),
    }
    assert!(m.get_session("a").is_none());
    assert!(m.remove_session("a").is_ok());
    assert_eq!(m.list_sessions(), vec!["b".to_string()]);
}

#[test]
fn stopping_closes_every_session() {
    let mut m = WebSocketConnectionManager::new(WebSocketPoolConfig::default_config());
    m.start();
    assert!(m.is_running);
    m.insert_session(session("a", 1));
    m.insert_session(session("b", 2));
    let closed = m.stop();
    assert!(!m.is_running);
    assert!(m.list_sessions().is_empty());
    assert_eq!(closed.len(), 2);
    assert_eq!(closed[0].session_id, "a");
    assert!(closed.iter().all(|s| s.get_state() == StreamSessionState::Terminated));
    assert!(closed.iter().all(|s| s.connection.state == WebSocketConnectionState::Closing));
}

#[test]
fn control_commands_set_session_state() {
    let mut s = session("a", 1);
    assert_eq!(s.get_state(), StreamSessionState::Initializing);
    let cases = [
        (StreamControl::Start, StreamSessionState::Active),
        (StreamControl::Pause, StreamSessionState::Paused),
        (StreamControl::Resume, StreamSessionState::Active),
        (StreamControl::Reset, StreamSessionState::Initializing),
        (StreamControl::Stop, StreamSessionState::Terminated),
    ];
    for (command, state) in cases {
        match s.control(command) {
            WebSocketStreamMessage::Control { command: c, metadata } => {
                assert_eq!(c, command);
                assert!(metadata.is_none());
            },
            other => panic!("unexpected {:?}", other),
        }
        assert_eq!(s.get_state(), state);
    }
    s.record_sent(1_700_000_000);
    s.record_sent(1_700_000_005);
    assert_eq!(s.get_metrics().messages_sent, 2);
    assert_eq!(s.get_metrics().last_activity, Some(1_700_000_005));
}

#[test]
fn enhanced_builder_chooses_pool_or_plain_session() {
    let client = Client::new("key".to_string(), "https://example.com".to_string());
    let mut api = WebSocketStreamingApi::new(&client);
    assert!(api.start_manager());
    assert!(!api.start_manager());
    assert!(api.manager.is_running);

    let b = api.enhanced_stream_builder().compression_level(0);
    assert_eq!(b.optimization_config.message_config.compression_level, 1);
    let b = b.compression_level(12).serialization_format(SerializationFormat::MessagePack).pool_size(3);
    assert_eq!(b.optimization_config.message_config.compression_level, 9);
    assert_eq!(b.optimization_config.message_config.serialization_format, SerializationFormat::MessagePack);
    assert_eq!(b.serialization_format, SerializationFormat::MessagePack);
    assert_eq!(b.optimization_config.pool_config.max_connections_per_endpoint, 3);

    match api.enhanced_stream_builder().prepare() {
        Err(Error::InvalidArgument(msg)) => assert_eq!(msg, "Endpoint is required"),
        other => panic!("unexpected {:?}", other),
    }
    match api.enhanced_stream_builder().endpoint("wss://x").prepare().unwrap() {
        EnhancedStreamPlan::Optimized { endpoint } => assert_eq!(endpoint, "wss://x"),
        other => panic!("unexpected {:?}", other),
    }
    match api.enhanced_stream_builder().endpoint("wss://y").use_optimization(false).prepare().unwrap() {
        EnhancedStreamPlan::Basic { endpoint, .. } => assert_eq!(endpoint, "wss://y"),
        other => panic!("unexpected {:?}", other),
    }
    let basic = EnhancedConnectionResult::Basic { session_id: "ws_session_0".to_string() };
    assert!(!basic.is_optimized());

    assert_eq!(api.create_stream("wss://z", 5).unwrap(), "ws_session_0");
    assert_eq!(api.list_active_streams(), vec!["ws_session_0".to_string()]);
    let s = api.get_session("ws_session_0").unwrap();
    assert_eq!(s.get_state(), StreamSessionState::Initializing);
    assert!(s.connection.is_connected());
    assert_eq!(s.connection.get_metrics().connection_count, 1);
    assert_eq!(s.created_at, 5);
    assert!(api.close_stream("ws_session_0").is_err());
    assert!(api.list_active_streams().is_empty());
    assert!(api.close_stream("ws_session_0").is_ok());
    let mut config = OptimizedWebSocketConfig::default_config();
    config.message_config.max_batch_size = 4;
    api.update_optimization_config(config);
    assert_eq!(api.get_optimization_config().message_config.max_batch_size, 4);
    assert_eq!(api.cleanup_pool(0).unwrap(), 0);
    assert!(api.stop_manager().is_empty());
}
