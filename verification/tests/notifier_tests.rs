use ollie_scraper::notifier::{alarm_step, AlarmAction, AlarmPhase, Notifier};
use std::sync::atomic::Ordering;

#[test]
fn test_notification_args_construction() {
    let args = Notifier::build_notification_args("test-channel");

    assert_eq!(args.len(), 4);
    assert_eq!(args[0], "-u");
    assert_eq!(args[1], "critical");
    assert_eq!(args[2], "CHANNEL OPEN");
    assert_eq!(args[3], "Channel is now: test-channel");
}

#[test]
fn test_notification_args_with_special_characters() {
    let args = Notifier::build_notification_args("voice-chat-123");

    assert_eq!(args[3], "Channel is now: voice-chat-123");
}

#[test]
fn test_sound_args_construction() {
    let notifier = Notifier::new("/path/to/sound.mp3".to_string());
    let args = notifier.build_sound_args();

    assert_eq!(args.len(), 3);
    assert_eq!(args[0], "--no-video");
    assert_eq!(args[1], "--really-quiet");
    assert_eq!(args[2], "/path/to/sound.mp3");
}

#[test]
fn test_notifier_creation() {
    let notifier = Notifier::new("/test/path/boom.mp3".to_string());

    assert_eq!(notifier.sound_path(), "/test/path/boom.mp3");
    assert!(!notifier.is_running());
}

#[test]
fn test_stop_sets_running_to_false() {
    let notifier = Notifier::new("/test/boom.mp3".to_string());

    // Mark the alert loop as started
    notifier.start();
    assert!(notifier.is_running());

    // Stop should set it to false
    notifier.stop();
    assert!(!notifier.is_running());
}

#[test]
fn test_alarm_loop_cycle() {
    // The loop notifies exactly once, at entry ...
    let (phase, action) = alarm_step(AlarmPhase::Start, true);
    assert!(matches!(phase, AlarmPhase::Play));
    assert!(matches!(action, AlarmAction::Notify));

    // ... then plays and settles into thirty sleep-and-check steps ...
    let (phase, action) = alarm_step(phase, true);
    assert!(matches!(phase, AlarmPhase::Wait { checks_left: 30 }));
    assert!(matches!(action, AlarmAction::PlaySound));

    let (phase, action) = alarm_step(phase, true);
    assert!(matches!(phase, AlarmPhase::Wait { checks_left: 29 }));
    assert!(matches!(action, AlarmAction::Sleep100Ms));

    // ... and after the last check plays again, never notifying anew.
    let (phase, action) = alarm_step(AlarmPhase::Wait { checks_left: 0 }, true);
    assert!(matches!(phase, AlarmPhase::Wait { checks_left: 30 }));
    assert!(matches!(action, AlarmAction::PlaySound));
}

#[test]
fn test_alarm_stop_exits_within_one_check() {
    // A cleared flag ends the loop at the very next check, from any phase —
    // part-way through the cycle included, never only after the full cycle.
    let (_, action) = alarm_step(AlarmPhase::Wait { checks_left: 17 }, false);
    assert!(matches!(action, AlarmAction::Exit));

    let (_, action) = alarm_step(AlarmPhase::Play, false);
    assert!(matches!(action, AlarmAction::Exit));

    let (_, action) = alarm_step(AlarmPhase::Start, false);
    assert!(matches!(action, AlarmAction::Exit));
}

#[test]
fn test_running_flag_is_shared() {
    let notifier = Notifier::new("/test/boom.mp3".to_string());
    let flag = notifier.running_flag();

    // Initially not running
    assert!(!flag.load(Ordering::SeqCst));

    // Set via notifier
    notifier.start();

    // Flag should reflect the change
    assert!(flag.load(Ordering::SeqCst));

    // Stop via flag
    flag.store(false, Ordering::SeqCst);

    // Notifier should reflect the change
    assert!(!notifier.is_running());
}
