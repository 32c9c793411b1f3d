use snownite::client::is_success_status;
use snownite::client::messages_reply;
use snownite::client::reqwest_builder_for;
use snownite::client::MessagesReply;
use snownite::client::ClientBuildError;
use snownite::client::Http;
use snownite::snowflake::Snowflake;
use std::time::Duration;

#[test]
fn builder_requires_token() {
    let result = Http::builder().user_agent("Nitronanite/1.0").build();
    assert!(matches!(result, Err(ClientBuildError::MissingToken)));
}

#[test]
fn builder_rejects_empty_fields() {
    let token_result = Http::builder()
        .token(" ")
        .user_agent("Nitronanite/1.0")
        .build();
    assert!(matches!(token_result, Err(ClientBuildError::EmptyToken)));

    let user_agent_result = Http::builder().token("abc").user_agent("").build();
    assert!(matches!(
        user_agent_result,
        Err(ClientBuildError::EmptyUserAgent)
    ));
}

#[test]
fn builder_creates_client() {
    let client = Http::builder()
        .token("abc")
        .user_agent("Nitronanite/1.0")
        .build();

    assert!(client.is_ok());
}

#[test]
fn builder_defaults() {
    let builder = Http::builder();
    let shown = format!("{builder:?}");
    assert!(shown.contains("timeout: 30s"), "{shown}");
    assert!(shown.contains("https://discord.com/api/v9"), "{shown}");
    let client = builder.token("t0ken").build().unwrap();
    assert_eq!(client.token(), "t0ken");
    assert_eq!(client.base_url(), "https://discord.com/api/v9");
}

#[test]
fn builder_rejects_blank_token_before_user_agent() {
    let result = Http::builder().token("\u{3000}\t").user_agent(" ").build();
    assert!(matches!(result, Err(ClientBuildError::EmptyToken)));
    let result = Http::builder().user_agent(" ").build();
    assert!(matches!(result, Err(ClientBuildError::MissingToken)));
}

#[test]
fn builder_keeps_settings() {
    let client = Http::builder()
        .token(" secret ")
        .base_url("http://localhost:8080/api")
        .timeout(Duration::from_millis(1500))
        .build()
        .unwrap();
    assert_eq!(client.token(), " secret ");
    assert_eq!(client.base_url(), "http://localhost:8080/api");
}

#[test]
fn channel_messages_request_targets_channel() {
    let client = Http::builder().token("abc").base_url("http://h/api").build().unwrap();
    let request = client.channel_messages_request(Snowflake::from_raw(1451259544243015942), Some(20));
    assert_eq!(request.url, "http://h/api/channels/1451259544243015942/messages");
    assert_eq!(request.authorization, "abc");
    assert_eq!(request.limit, Some(20));
    let request = client.channel_messages_request(Snowflake::from_raw(0), None);
    assert_eq!(request.url, "http://h/api/channels/0/messages");
    assert_eq!(request.limit, None);
}

#[test]
fn success_statuses() {
    assert!(is_success_status(200));
    assert!(is_success_status(204));
    assert!(is_success_status(299));
    assert!(!is_success_status(199));
    assert!(!is_success_status(300));
    assert!(!is_success_status(404));
}

#[test]
fn from_client_keeps_pool_settings() {
    let settings = Http::builder().token("tok").base_url("http://x").settings().unwrap();
    let built = Http::from_client(Ok(reqwest::Client::new()), settings);
    let http = built.unwrap();
    assert_eq!(http.token(), "tok");
    assert_eq!(http.base_url(), "http://x");
}

#[test]
fn settings_fill_in_default_user_agent() {
    let settings = Http::builder()
        .token("abc")
        .timeout(Duration::from_secs(5))
        .settings()
        .unwrap();
    assert_eq!(settings.token(), "abc");
    assert_eq!(settings.user_agent(), "Nitronanite/1.0");
    assert_eq!(settings.timeout(), Duration::from_secs(5));
    assert_eq!(settings.base_url(), "https://discord.com/api/v9");
    let settings = Http::builder().token("abc").user_agent("bot/2").settings().unwrap();
    assert_eq!(settings.user_agent(), "bot/2");
    assert_eq!(settings.timeout(), Duration::from_secs(30));
    assert!(matches!(
        Http::builder().token("abc").user_agent("\t").settings(),
        Err(ClientBuildError::EmptyUserAgent)
    ));
}

#[test]
fn invalid_header_user_agent_fails_build() {
    for agent in ["bot\n1", "a\u{1}b", "x\u{7f}"] {
        let result = Http::builder().token("abc").user_agent(agent).build();
        assert!(matches!(result, Err(ClientBuildError::RequestClient(_))), "{agent:?}");
    }
    assert!(Http::builder().token("abc").user_agent("tab\tand \u{e9}").build().is_ok());
}

#[test]
fn messages_reply_by_status() {
    assert_eq!(messages_reply(200), MessagesReply::DecodeMessages);
    assert_eq!(messages_reply(299), MessagesReply::DecodeMessages);
    assert_eq!(messages_reply(300), MessagesReply::StatusError);
    assert_eq!(messages_reply(401), MessagesReply::StatusError);
    assert_eq!(messages_reply(199), MessagesReply::StatusError);
}

#[test]
fn reqwest_builder_follows_settings() {
    let settings = Http::builder().token("abc").user_agent("bot/3").settings().unwrap();
    assert!(reqwest_builder_for(&settings).build().is_ok());
    let settings = Http::builder().token("abc").user_agent("bad\nagent").settings().unwrap();
    assert!(reqwest_builder_for(&settings).build().is_err());
}
