//! The alert controller: one desktop notification per alert, then a looping
//! audible signal until the shared running flag is cleared.
//!
//! The flag is the only coordination between whoever triggers an alert and
//! whoever stops it, so it is an atomic boolean behind a shared handle; its
//! value is never assumed here, only stored and read. The loop's decisions
//! are the verified `alarm_step`; the subprocess calls and sleeps that
//! perform its actions live outside the library, which also tests the flag
//! before entering the loop so that at most one alert loop runs at a time —
//! a trigger while one is already running starts no second loop.

use vstd::prelude::*;
use vstd::string::StringExecFns;
use std::sync::Arc;
use std::sync::atomic::AtomicBool;
use std::sync::atomic::Ordering;

verus! {

/// Relies on `<Arc<AtomicBool> as Clone>::clone`: the clone is a handle to
/// the same shared flag.
#[verifier::external_body]
fn clone_flag(f: &Arc<AtomicBool>) -> (r: Arc<AtomicBool>)
    ensures
        r == *f,
{
    Arc::clone(f)
}

/// Owns the alert loop's running flag and the path of the sound to play.
pub struct Notifier {
    sound_path: String,
    running: Arc<AtomicBool>,
}

impl Notifier {
    /// The path of the sound file the alert loop plays.
    pub closed spec fn spec_sound_path(&self) -> Seq<char> {
        self.sound_path@
    }

    /// A notifier whose alert loop is not running.
    pub fn new(sound_path: String) -> (n: Notifier)
        ensures
            n.spec_sound_path() == sound_path@,
    {
        Notifier { sound_path, running: Arc::new(AtomicBool::new(false)) }
    }

    /// The notifier's own running flag.
    pub closed spec fn spec_flag(&self) -> Arc<AtomicBool> {
        self.running
    }

    /// A shared handle to the running flag, for whoever may stop the alert
    /// from outside: the very flag this notifier reads and writes, so a
    /// store through the handle is what `is_running` and the alert loop see.
    pub fn running_flag(&self) -> (r: Arc<AtomicBool>)
        ensures
            r == self.spec_flag(),
    {
        clone_flag(&self.running)
    }

    /// Whether the alert loop should keep running. The flag is shared across
    /// tasks, so nothing is promised of the value read.
    pub fn is_running(&self) -> bool {
        self.running.load(Ordering::SeqCst)
    }

    /// Mark the alert loop as started.
    pub fn start(&self) {
        self.running.store(true, Ordering::SeqCst);
    }

    /// Stop the alert loop: the next check of the flag ends it. An in-flight
    /// playback is not interrupted; it is only never followed by another.
    pub fn stop(&self) {
        self.running.store(false, Ordering::SeqCst);
    }

    /// The argument list of the desktop-notification call: a critical-urgency
    /// notification whose body carries the new name.
    pub fn build_notification_args(channel_name: &str) -> (r: Vec<String>)
        ensures
            r@.len() == 4,
            r@[0]@ == "-u"@,
            r@[1]@ == "critical"@,
            r@[2]@ == "CHANNEL OPEN"@,
            r@[3]@ == "Channel is now: "@ + channel_name@,
    {
        let mut body = "Channel is now: ".to_owned();
        body.append(channel_name);
        let mut args: Vec<String> = Vec::new();
        args.push("-u".to_owned());
        args.push("critical".to_owned());
        args.push("CHANNEL OPEN".to_owned());
        args.push(body);
        args
    }

    /// The argument list of the audio-playback call: no video, no output,
    /// the configured sound file.
    pub fn build_sound_args(&self) -> (r: Vec<String>)
        ensures
            r@.len() == 3,
            r@[0]@ == "--no-video"@,
            r@[1]@ == "--really-quiet"@,
            r@[2]@ == self.spec_sound_path(),
    {
        let mut args: Vec<String> = Vec::new();
        args.push("--no-video".to_owned());
        args.push("--really-quiet".to_owned());
        args.push(self.sound_path.clone());
        args
    }

    /// The configured sound file's path.
    pub fn sound_path(&self) -> (r: &str)
        ensures
            r@ == self.spec_sound_path(),
    {
        self.sound_path.as_str()
    }
}

/// Where the alert loop stands: about to send its one notification, about
/// to play the sound, or part-way through the checks between two playbacks.
pub enum AlarmPhase {
    Start,
    Play,
    Wait { checks_left: u8 },
}

/// What the alert loop's driver must do next: send the desktop
/// notification, play the sound once (blocking until playback ends), sleep
/// one 100ms check interval, or leave the loop.
pub enum AlarmAction {
    Notify,
    PlaySound,
    Sleep100Ms,
    Exit,
}

/// The alert loop's transition table, over the phase and the running-flag
/// value the driver just read.
///
/// A cleared flag exits from every phase, so a stop takes effect at the
/// very next 100ms check, never only after the full cycle between
/// playbacks. While the flag stands, the loop sends the notification once —
/// only the entry phase demands it, and no transition leads back there —
/// then alternates one playback with thirty sleep-and-check steps.
pub open spec fn alarm_step_spec(ph: AlarmPhase, running: bool) -> (AlarmPhase, AlarmAction) {
    if !running {
        (ph, AlarmAction::Exit)
    } else {
        match ph {
            AlarmPhase::Start => (AlarmPhase::Play, AlarmAction::Notify),
            AlarmPhase::Play => (AlarmPhase::Wait { checks_left: 30 }, AlarmAction::PlaySound),
            AlarmPhase::Wait { checks_left } => if checks_left > 0 {
                (
                    AlarmPhase::Wait { checks_left: (checks_left - 1) as u8 },
                    AlarmAction::Sleep100Ms,
                )
            } else {
                (AlarmPhase::Wait { checks_left: 30 }, AlarmAction::PlaySound)
            },
        }
    }
}

/// One decision of the alert loop. The driver starts at `AlarmPhase::Start`
/// after setting the flag, performs each returned action — notification,
/// playback, one 100ms sleep — re-reads the flag, and steps again until
/// `Exit`.
pub fn alarm_step(ph: AlarmPhase, running: bool) -> (r: (AlarmPhase, AlarmAction))
    ensures
        r == alarm_step_spec(ph, running),
        !running ==> r.1 is Exit,
        r.1 is Notify <==> (running && ph is Start),
        running ==> !(r.0 is Start),
{
    if !running {
        (ph, AlarmAction::Exit)
    } else {
        match ph {
            AlarmPhase::Start => (AlarmPhase::Play, AlarmAction::Notify),
            AlarmPhase::Play => (AlarmPhase::Wait { checks_left: 30 }, AlarmAction::PlaySound),
            AlarmPhase::Wait { checks_left } => if checks_left > 0 {
                (AlarmPhase::Wait { checks_left: checks_left - 1 }, AlarmAction::Sleep100Ms)
            } else {
                (AlarmPhase::Wait { checks_left: 30 }, AlarmAction::PlaySound)
            },
        }
    }
}

} // verus!
