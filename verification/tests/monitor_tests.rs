use ollie_scraper::monitor::{
    api_url, bootstrap_step, parse_channel_body, poll_step, FetchError, DISCORD_API_BASE,
    DISCORD_GATEWAY_URL, USER_AGENT,
};
use ollie_scraper::state::SharedState;

#[test]
fn test_constants() {
    assert!(DISCORD_API_BASE.starts_with("https://"));
    assert!(DISCORD_GATEWAY_URL.starts_with("wss://"));
    assert!(USER_AGENT.contains("Mozilla"));
}

#[test]
fn test_api_url_construction() {
    let channel_id = "123456789";
    let url = api_url(channel_id);
    assert_eq!(url, "https://discord.com/api/v9/channels/123456789");
}

#[test]
fn test_last_name_rwlock_behavior() {
    let mut last_name = SharedState::new();

    // Initial state
    assert!(last_name.read().is_none());

    // Write new value
    last_name.set(Some("test-channel".to_string()));

    // Read new value
    assert_eq!(last_name.read(), Some("test-channel".to_string()));
}

#[test]
fn test_parse_channel_body() {
    let channel = parse_channel_body(r#"{"id":"77","name":"lobby"}"#)
        .ok()
        .expect("a well-formed body must parse");
    assert_eq!(channel.id, "77");
    assert_eq!(channel.name, Some("lobby".to_string()));

    let err = parse_channel_body(r#"{"name":"lobby"}"#).err().expect("a body without id fails");
    assert!(matches!(err, FetchError::Decode));
}

#[test]
fn test_malformed_body_is_survived() {
    // A body that is not JSON at all becomes a decode failure ...
    let err = parse_channel_body("<html>oops").err().expect("non-JSON body fails");
    assert!(matches!(err, FetchError::Decode));

    // ... which the poller logs and survives: the stored name stays put and
    // no alert fires, whatever the failure was.
    let mut state = SharedState::new();
    state.set(Some("before".to_string()));
    assert_eq!(poll_step(Err(FetchError::Decode), &mut state), None);
    assert_eq!(poll_step(Err(FetchError::Status(502)), &mut state), None);
    assert_eq!(poll_step(Err(FetchError::Transport), &mut state), None);
    assert_eq!(state.read(), Some("before".to_string()));
}

#[test]
fn test_poll_step_reconciles() {
    let mut state = SharedState::new();
    let alert = poll_step(Ok(Some("open".to_string())), &mut state);
    assert_eq!(alert, Some("open".to_string()));
    assert_eq!(state.read(), Some("open".to_string()));

    // The same name again is a no-op.
    let alert = poll_step(Ok(Some("open".to_string())), &mut state);
    assert_eq!(alert, None);
}

#[test]
fn test_bootstrap_step_never_alerts() {
    let mut state = SharedState::new();
    bootstrap_step(Ok(Some("initial".to_string())), &mut state);
    assert_eq!(state.read(), Some("initial".to_string()));

    let mut other = SharedState::new();
    bootstrap_step(Err(FetchError::Transport), &mut other);
    assert!(other.read().is_none());
}
