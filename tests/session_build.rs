use sonos_boxes::net::Ipv4;
use sonos_boxes::session::{
    live_sessions, BuildStage, Config, DeviceDescriptor, RepeatMode, SessionBuild, SetupAction,
    SoundProfile,
};

fn profile_a() -> SoundProfile {
    SoundProfile {
        volume: 35,
        crossfade: true,
        shuffle: false,
        repeat: true,
        loudness: true,
        treble: -3,
        bass: 7,
    }
}

/// Runs a build the way the application does, with `connects` deciding the
/// connection and `accepts` each setting in turn.
fn run_build(d: DeviceDescriptor, connects: bool, accepts: &[bool]) -> (Vec<SetupAction>, Option<Ipv4>) {
    let mut b: SessionBuild<Ipv4> = SessionBuild::new(d);
    let mut calls = Vec::new();
    let mut k = 0;
    while let Some(action) = b.next_action() {
        calls.push(action);
        match action {
            SetupAction::Connect(ip) => {
                if connects {
                    b.connected(ip)
                } else {
                    b.connect_failed()
                }
            }
            _ => {
                b.setting_done(accepts[k % accepts.len()]);
                k += 1;
            }
        }
    }
    (calls, b.into_session())
}

#[test]
fn unreachable_descriptor_is_skipped_and_the_other_stays() {
    let a = DeviceDescriptor { ip: Ipv4::new(1, 2, 3, 4), sound: profile_a() };
    let local = DeviceDescriptor::default();
    let (calls_a, out_a) = run_build(a, false, &[true]);
    let (_, out_local) = run_build(local, true, &[true]);
    assert_eq!(calls_a, vec![SetupAction::Connect(Ipv4::new(1, 2, 3, 4))]);
    let live = live_sessions(vec![out_a, out_local]);
    assert_eq!(live, vec![Ipv4::new(127, 0, 0, 1)]);
}

#[test]
fn failed_settings_keep_the_session() {
    let d = DeviceDescriptor { ip: Ipv4::new(10, 0, 0, 7), sound: profile_a() };
    let (calls, out) = run_build(d, true, &[false]);
    assert_eq!(calls.len(), 10);
    assert_eq!(out, Some(Ipv4::new(10, 0, 0, 7)));
    assert_eq!(live_sessions(vec![None, out, None]), vec![Ipv4::new(10, 0, 0, 7)]);
}

#[test]
fn settings_are_pushed_in_order() {
    let d = DeviceDescriptor { ip: Ipv4::new(10, 0, 0, 8), sound: profile_a() };
    let (calls, _) = run_build(d, true, &[true, false]);
    assert_eq!(
        calls,
        vec![
            SetupAction::Connect(Ipv4::new(10, 0, 0, 8)),
            SetupAction::Stop,
            SetupAction::SetVolume(35),
            SetupAction::SetCrossfade(true),
            SetupAction::SetShuffle(false),
            SetupAction::SetRepeat(RepeatMode::All),
            SetupAction::SetLoudness(true),
            SetupAction::SetTreble(-3),
            SetupAction::SetBass(7),
            SetupAction::ClearQueue,
        ]
    );
}

#[test]
fn repeat_off_maps_to_no_repeat() {
    let d = DeviceDescriptor::default();
    let (calls, _) = run_build(d, true, &[true]);
    assert_eq!(calls[5], SetupAction::SetRepeat(RepeatMode::Off));
}

#[test]
fn stages_after_connect() {
    let mut b: SessionBuild<u8> = SessionBuild::new(DeviceDescriptor::default());
    assert_eq!(b.stage, BuildStage::Connect);
    assert!(!b.is_finished());
    b.connect_failed();
    assert_eq!(b.stage, BuildStage::Skipped);
    assert!(b.is_finished());
    assert_eq!(b.next_action(), None);
    assert_eq!(b.into_session(), None);
}

#[test]
fn default_profile_and_config() {
    let p = SoundProfile::default();
    assert_eq!(p.volume, 10);
    assert_eq!((p.treble, p.bass), (5, 5));
    assert!(!p.crossfade && !p.shuffle && !p.repeat && !p.loudness);
    let c = Config::default();
    assert_eq!(c.path, "");
    assert_eq!(c.speaker.len(), 3);
    assert!(c.speaker.iter().all(|d| d.ip == Ipv4::new(127, 0, 0, 1) && d.sound == p));
}

#[test]
fn empty_outcomes_give_no_sessions() {
    let none: Vec<Option<u8>> = Vec::new();
    assert!(live_sessions(none).is_empty());
    assert_eq!(live_sessions(vec![Some(1u8), None, Some(3)]), vec![1, 3]);
}
