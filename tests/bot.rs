use rusty_home::auth::{cached_credentials, token_fields, AuthCache, Token};
use rusty_home::bot::{bot_commands, handle_update};
use rusty_home::config::{server_config, store_config, ConfigError, ServerConfig};
use rusty_home::keys::{offset_key, authentication_key, consumer_group_name, hardware_stream_key, position_stream_key, ListenerKeys};
use rusty_home::listener::route_stream;
use rusty_home::ingest::EntryKind;
use rusty_home::methods::{DeleteMessage, GetUpdates, PinChatMessage, SendMessage, UnpinChatMessage};
use rusty_home::middleware::{failure_response, FailureResponse, RouteFailure, TracingMiddleware};
use rusty_home::models::{Chat, ChatId, Message, ParseMode, Response, Update, UpdatePayload};

fn message_update(text: Option<&str>) -> Update {
    Update {
        id: 7,
        payload: UpdatePayload::Message(Message {
            id: 31,
            chat: Chat { id: -1001 },
            from: None,
            text: text.map(|t| t.to_string()),
        }),
    }
}

#[test]
fn start_command_replies_with_chat_id() {
    let reply = handle_update(&message_update(Some("/start now"))).expect("a reply");
    assert_eq!(reply.text, "👋 Your chat ID is `-1001`\\.");
    assert!(matches!(reply.chat_id, ChatId::UniqueId(-1001)));
    assert_eq!(reply.parse_mode, Some(ParseMode::MarkdownV2));
    assert_eq!(reply.reply_to_message_id, Some(31));
}

#[test]
fn other_updates_are_ignored() {
    assert!(handle_update(&message_update(Some("hello /start"))).is_none());
    assert!(handle_update(&message_update(Some("/sta"))).is_none());
    assert!(handle_update(&message_update(None)).is_none());
    let member = Update { id: 8, payload: UpdatePayload::MyChatMember(serde_json::Value::Null) };
    assert!(handle_update(&member).is_none());
}

#[test]
fn commands_and_requests() {
    let commands = bot_commands();
    assert_eq!(commands.commands.len(), 1);
    assert_eq!(commands.commands[0].command, "start");
    assert_eq!(commands.commands[0].description, "Tells your chat ID");

    let updates = GetUpdates::new(std::time::Duration::from_secs(30)).offset(5);
    assert_eq!(updates.offset, 5);
    assert!(updates.allowed_updates.is_empty());
    let send = SendMessage::new(ChatId::from(3), "hi".to_string()).reply_to_message_id(9);
    assert_eq!(send.parse_mode, None);
    assert_eq!(send.reply_to_message_id, Some(9));
    let pin = PinChatMessage::new(ChatId::from(3), 4);
    assert!(!pin.disable_notification);
    assert!(pin.disable_notification().disable_notification);
    let unpin = UnpinChatMessage::new(ChatId::Username("@pets".to_string()), 4);
    assert!(matches!(unpin.chat_id, ChatId::Username(ref name) if name == "@pets"));
    let delete = DeleteMessage::new(ChatId::from(&ChatId::UniqueId(8)), 2);
    assert!(matches!(delete.chat_id, ChatId::UniqueId(8)));
    assert_eq!(delete.message_id, 2);
}

#[test]
fn responses_become_results() {
    let ok: Response<Vec<Update>> = Response::Success { result: Vec::new() };
    assert!(ok.into_result().ok().unwrap().is_empty());
    let failed: Response<bool> =
        Response::Failure { error_code: 409, description: "Conflict: terminated by other getUpdates request".to_string() };
    let error = failed.into_result().err().unwrap();
    assert_eq!(error.error_code, 409);
    assert_eq!(error.text(), "error 409: Conflict: terminated by other getUpdates request");
}

#[test]
fn key_layout() {
    assert_eq!(authentication_key("Someone@Example.com"), "rusty:tractive:someone@example.com:authentication");
    assert_eq!(hardware_stream_key("AB12"), "rusty:tractive:ab12:hardware");
    assert_eq!(position_stream_key("AB12"), "rusty:tractive:ab12:position");
    assert_eq!(consumer_group_name(42), "bot:42");
    let keys = ListenerKeys::new("AB12", 42);
    assert_eq!(keys.live_location_message_id, "rusty:tractive:ab12:telegram:42:live_location_message_id");
    assert_eq!(keys.pinned_message_ids, "rusty:tractive:ab12:telegram:42:pinned_message_ids");
    assert_eq!(keys.last_known_battery_level, "rusty:tractive:ab12:telegram:42:last_known_battery_level");
    assert_eq!(route_stream(&keys, "rusty:tractive:ab12:position"), Some(EntryKind::Position));
    assert_eq!(route_stream(&keys, "rusty:tractive:ab12:hardware"), Some(EntryKind::Hardware));
    assert_eq!(route_stream(&keys, "rusty:tractive:ab13:hardware"), None);
}

#[test]
fn auth_cache_coherence() {
    let mut cache = AuthCache::new();
    assert!(cache.fields_at(0).is_empty());
    cache.store(Token { user_id: "u1".to_string(), access_token: "SECRET-REDACTED".to_string(), expires_at: 100 });
    let fields = cache.fields_at(99);
    assert_eq!(cached_credentials(&fields), Some(("u1".to_string(), "SECRET-REDACTED".to_string())));
    assert!(cache.fields_at(100).is_empty());
    assert_eq!(cached_credentials(&cache.fields_at(100)), None);
    let partial = vec![("user_id".to_string(), "u1".to_string())];
    assert_eq!(cached_credentials(&partial), None);
    let token = Token { user_id: "u2".to_string(), access_token: "t".to_string(), expires_at: 5 };
    assert_eq!(token_fields(&token)[1], ("access_token".to_string(), "t".to_string()));
}

#[test]
fn store_configuration() {
    assert_eq!(server_config(&vec![], "svc".to_string()).err(), Some(ConfigError::NoAddress));
    match server_config(&vec![("10.0.0.1".to_string(), 6379)], "svc".to_string()) {
        Ok(ServerConfig::Centralized { host, port }) => assert_eq!((host.as_str(), port), ("10.0.0.1", 6379)),
        _ => panic!("expected a single server"),
    }
    let addresses = vec![("a".to_string(), 26379), ("b".to_string(), 26380)];
    match server_config(&addresses, "svc".to_string()) {
        Ok(ServerConfig::Sentinel { service_name, hosts }) => {
            assert_eq!(service_name, "svc");
            assert_eq!(hosts, addresses);
        }
        _ => panic!("expected sentinels"),
    }
}

#[test]
fn route_failures() {
    assert_eq!(failure_response(RouteFailure::NotFound), FailureResponse { status: 404, is_error: false });
    assert_eq!(failure_response(RouteFailure::MethodNotAllowed), FailureResponse { status: 405, is_error: false });
    assert_eq!(failure_response(RouteFailure::BadPath), FailureResponse { status: 400, is_error: false });
    assert_eq!(failure_response(RouteFailure::Other), FailureResponse { status: 500, is_error: true });
    let wrapped = TracingMiddleware.transform(3u8);
    assert_eq!(wrapped.ep, 3);
}

#[test]
fn store_connection_policy() {
    assert_eq!(store_config(&vec![], "svc".to_string()).err(), Some(ConfigError::NoAddress));
    let config = store_config(&vec![("10.0.0.1".to_string(), 6379)], "svc".to_string()).ok().unwrap();
    assert!(!config.pipeline);
    assert!(config.reject_blocking);
    assert!(matches!(config.server, ServerConfig::Centralized { port: 6379, .. }));
}

#[test]
fn extreme_ids_in_keys() {
    assert_eq!(offset_key(i64::MIN), "rusty:telegram:-9223372036854775808:offset");
    assert_eq!(consumer_group_name(i64::MAX), "bot:9223372036854775807");
    assert_eq!(consumer_group_name(0), "bot:0");
}
