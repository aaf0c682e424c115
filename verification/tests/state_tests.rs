use ollie_scraper::state::SharedState;

#[test]
fn test_final_name_is_last_observed() {
    // However the confirmed observations interleave, the stored name ends up
    // equal to the most recently confirmed one.
    let mut state = SharedState::new();
    let observations = [
        Some("alpha".to_string()),
        Some("alpha".to_string()),
        None,
        Some("beta".to_string()),
        Some("gamma".to_string()),
    ];
    for obs in observations.iter() {
        state.observe(obs.clone());
    }
    assert_eq!(state.read(), Some("gamma".to_string()));
}

#[test]
fn test_repeat_observation_alerts_once() {
    let mut state = SharedState::new();
    let (changed, alert) = state.observe(Some("open".to_string()));
    assert!(changed);
    assert_eq!(alert, Some("open".to_string()));

    // The same name again, from either source, alerts no second time.
    let (changed, alert) = state.observe(Some("open".to_string()));
    assert!(!changed);
    assert_eq!(alert, None);
}

#[test]
fn test_no_alert_for_absent_name() {
    let mut state = SharedState::new();
    state.set(Some("open".to_string()));

    // A transition into the absent name changes the state but never alerts.
    let (changed, alert) = state.observe(None);
    assert!(changed);
    assert_eq!(alert, None);
    assert_eq!(state.read(), None);

    // Observing the absent name while absent is a no-op.
    let (changed, alert) = state.observe(None);
    assert!(!changed);
    assert_eq!(alert, None);
}

#[test]
fn test_racing_observers_single_alert() {
    // The poller and the gateway client both observe the same new name at
    // nearly the same time; the compare-and-update serializes them, and only
    // the first raises the alert.
    let mut state = SharedState::new();
    state.set(Some("old-name".to_string()));

    let (_, first) = state.observe(Some("new-name".to_string()));
    let (_, second) = state.observe(Some("new-name".to_string()));
    assert_eq!(first, Some("new-name".to_string()));
    assert_eq!(second, None);
}
