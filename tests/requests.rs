use sonos_boxes::access::ApiError;
use sonos_boxes::command::{
    dispatch_playback, file_uri, finish_call, prepare_play_file, FileCall, FileMode, FileStage,
    PlaybackCommand, PlaybackOrder,
};
use sonos_boxes::environment::{OperationEnv, RootStatus};
use sonos_boxes::net::{Ipv4, PeerAddr};
use sonos_boxes::paths::{
    frontend_file_path, has_media_extension, is_under, join, media_file_path, normalize, serve_frontend,
    serve_media,
};
use sonos_boxes::views::{filter_views, listing_names, listing_path, ApiSpeaker, DirEntry, TrackInfo};

const LOCAL: PeerAddr = PeerAddr::V4(Ipv4 { a: 127, b: 0, c: 0, d: 1 });

fn env(server_mode: bool) -> OperationEnv {
    OperationEnv::new(
        "/music".to_string(),
        RootStatus::Directory,
        vec![Some(Ipv4::new(192, 168, 1, 20))],
        vec![Ipv4::new(192, 168, 1, 10), Ipv4::new(10, 0, 0, 3)],
        server_mode,
    )
    .unwrap()
}

fn live() -> Vec<Ipv4> {
    vec![Ipv4::new(192, 168, 1, 20), Ipv4::new(192, 168, 1, 21)]
}

#[test]
fn playback_for_missing_session_is_not_found() {
    let r = dispatch_playback(&env(false), LOCAL, &live(), Ipv4::new(10, 0, 0, 5), "play");
    assert_eq!(r, Err(ApiError::NotFound));
}

#[test]
fn unknown_action_is_not_found() {
    let r = dispatch_playback(&env(false), LOCAL, &live(), Ipv4::new(192, 168, 1, 21), "dance");
    assert_eq!(r, Err(ApiError::NotFound));
    let r = dispatch_playback(&env(false), LOCAL, &live(), Ipv4::new(192, 168, 1, 21), "");
    assert_eq!(r, Err(ApiError::NotFound));
}

#[test]
fn playback_from_remote_is_forbidden() {
    let remote = PeerAddr::V4(Ipv4::new(10, 0, 0, 99));
    let r = dispatch_playback(&env(false), remote, &live(), Ipv4::new(10, 0, 0, 5), "nonsense");
    assert_eq!(r, Err(ApiError::Forbidden));
    let r = dispatch_playback(&env(true), remote, &live(), Ipv4::new(192, 168, 1, 20), "pause");
    assert_eq!(r, Ok(PlaybackOrder { session: 0, command: PlaybackCommand::Pause }));
}

#[test]
fn every_action_word_is_read() {
    let words = [
        ("play", PlaybackCommand::Play),
        ("pause", PlaybackCommand::Pause),
        ("stop", PlaybackCommand::Stop),
        ("next", PlaybackCommand::Next),
        ("previous", PlaybackCommand::Previous),
        ("queue-clear", PlaybackCommand::ClearQueue),
        ("v-inc", PlaybackCommand::VolumeUp),
        ("v-dec", PlaybackCommand::VolumeDown),
    ];
    for (w, c) in words {
        assert_eq!(PlaybackCommand::parse(w), Some(c));
        let r = dispatch_playback(&env(false), LOCAL, &live(), Ipv4::new(192, 168, 1, 21), w);
        assert_eq!(r, Ok(PlaybackOrder { session: 1, command: c }));
    }
    assert_eq!(PlaybackCommand::parse("Play"), None);
    assert_eq!(PlaybackCommand::VolumeUp.volume_step(), 1);
    assert_eq!(PlaybackCommand::VolumeDown.volume_step(), -1);
    assert_eq!(PlaybackCommand::Stop.volume_step(), 0);
}

#[test]
fn device_failure_is_reported() {
    assert_eq!(finish_call(true), Ok(()));
    assert_eq!(finish_call(false), Err(ApiError::DeviceFailure));
}

#[test]
fn file_url_is_percent_encoded_on_first_host_address() {
    assert_eq!(
        file_uri(Ipv4::new(192, 168, 1, 10), "My Music/a b~c.mp3"),
        "http://192.168.1.10:46864/files/My%20Music%2Fa%20b~c.mp3"
    );
    assert_eq!(file_uri(Ipv4::new(10, 0, 0, 3), "é.ogg"), "http://10.0.0.3:46864/files/%C3%A9.ogg");
}

#[test]
fn play_file_does_not_interrupt_playback() {
    let mut job = prepare_play_file(&env(false), LOCAL, &live(), Ipv4::new(192, 168, 1, 21), "x y.mp3", FileMode::PlayNow).unwrap();
    assert_eq!(job.session, 1);
    assert_eq!(
        job.next_call(),
        Some(FileCall::SetTransport("http://192.168.1.10:46864/files/x%20y.mp3".to_string()))
    );
    job.url_pushed(true);
    assert_eq!(job.next_call(), Some(FileCall::QueryPlaying));
    job.playing_reported(Some(true));
    assert_eq!(job.next_call(), None);
    assert!(job.is_over());
    assert_eq!(job.result(), Ok(()));
}

#[test]
fn play_file_starts_an_idle_speaker() {
    for report in [Some(false), None] {
        let mut job = prepare_play_file(&env(false), LOCAL, &live(), Ipv4::new(192, 168, 1, 20), "a.mp3", FileMode::QueueNext).unwrap();
        assert_eq!(
            job.next_call(),
            Some(FileCall::QueueNext("http://192.168.1.10:46864/files/a.mp3".to_string()))
        );
        job.url_pushed(true);
        job.playing_reported(report);
        assert_eq!(job.next_call(), Some(FileCall::Play));
        job.play_done(true);
        assert_eq!(job.stage, FileStage::Done);
        assert_eq!(job.result(), Ok(()));
    }
}

#[test]
fn play_file_failures() {
    let mut job = prepare_play_file(&env(false), LOCAL, &live(), Ipv4::new(192, 168, 1, 20), "a.mp3", FileMode::PlayNow).unwrap();
    job.url_pushed(false);
    assert!(job.is_over());
    assert_eq!(job.result(), Err(ApiError::DeviceFailure));
    let r = prepare_play_file(&env(false), LOCAL, &live(), Ipv4::new(1, 1, 1, 1), "a.mp3", FileMode::PlayNow);
    assert_eq!(r.unwrap_err(), ApiError::NotFound);
    let r = prepare_play_file(&env(false), PeerAddr::V6(5), &live(), Ipv4::new(192, 168, 1, 20), "a.mp3", FileMode::QueueNext);
    assert_eq!(r.unwrap_err(), ApiError::Forbidden);
}

#[test]
fn listing_hides_dot_entries_and_marks_directories() {
    let entries = vec![
        DirEntry { name: "Albums".to_string(), is_dir: true },
        DirEntry { name: ".hidden".to_string(), is_dir: false },
        DirEntry { name: "song.mp3".to_string(), is_dir: false },
        DirEntry { name: ".git".to_string(), is_dir: true },
        DirEntry { name: "a.b".to_string(), is_dir: true },
    ];
    assert_eq!(listing_names(&entries), vec!["Albums/", "song.mp3", "a.b/"]);
    assert!(listing_names(&vec![]).is_empty());
}

#[test]
fn listing_path_stays_under_root() {
    let e = env(false);
    assert_eq!(listing_path(&e, LOCAL, "Albums"), Ok(Some("/music/Albums".to_string())));
    assert_eq!(listing_path(&e, LOCAL, "Albums/../Live"), Ok(Some("/music/Live".to_string())));
    assert_eq!(listing_path(&e, LOCAL, ""), Ok(Some("/music/".to_string())));
    assert_eq!(listing_path(&e, LOCAL, "../etc"), Ok(None));
    assert_eq!(listing_path(&e, LOCAL, "/etc"), Ok(None));
    assert_eq!(listing_path(&e, PeerAddr::V4(Ipv4::new(192, 168, 1, 20)), "x"), Err(ApiError::Forbidden));
}

fn view(ip: Ipv4, name: &str) -> ApiSpeaker {
    ApiSpeaker::from_reading(
        ip,
        Some(TrackInfo { creator: None, title: name.to_string(), duration: 100, elapsed: 5 }),
        20,
        true,
    )
}

#[test]
fn wildcard_addresses_show_all_speakers() {
    let views = || vec![view(Ipv4::new(10, 0, 0, 1), "a"), view(Ipv4::new(10, 0, 0, 2), "b")];
    assert_eq!(filter_views(views(), Ipv4::new(0, 0, 0, 0)).len(), 2);
    assert_eq!(filter_views(views(), Ipv4::new(255, 255, 255, 255)).len(), 2);
    let one = filter_views(views(), Ipv4::new(10, 0, 0, 2));
    assert_eq!(one.len(), 1);
    assert_eq!(one[0].ip, Ipv4::new(10, 0, 0, 2));
    assert!(filter_views(views(), Ipv4::new(10, 0, 0, 3)).is_empty());
}

#[test]
fn speaker_view_labels() {
    let v = ApiSpeaker::from_reading(Ipv4::new(10, 0, 0, 1), None, 30, false);
    assert_eq!(v.trackname, "None");
    assert_eq!((v.trackduration, v.trackelapsed, v.volume, v.is_playing), (0, 0, 30, false));
    let v = view(Ipv4::new(10, 0, 0, 1), "Song");
    assert_eq!(v.trackname, "unknown - Song");
    let t = TrackInfo { creator: Some("Band".to_string()), title: "Hit".to_string(), duration: 200, elapsed: 50 };
    let v = ApiSpeaker::from_reading(Ipv4::new(10, 0, 0, 1), Some(t), 30, true);
    assert_eq!(v.trackname, "Band - Hit");
    assert_eq!((v.trackduration, v.trackelapsed), (200, 50));
}

#[test]
fn media_paths_are_decoded_and_contained() {
    assert_eq!(media_file_path("/music", "a%20b.mp3"), Ok("/music/a b.mp3".to_string()));
    assert_eq!(media_file_path("/music/", "Alb/x.FLAC"), Err(ApiError::NotFound));
    assert_eq!(media_file_path("/music/", "Alb/x.flac"), Ok("/music/Alb/x.flac".to_string()));
    assert_eq!(media_file_path("/music", "..%2Fsecret.mp3"), Err(ApiError::NotFound));
    assert_eq!(media_file_path("/music", "%2Fetc%2Fa.wav"), Err(ApiError::NotFound));
    assert_eq!(media_file_path("/music", "notes.txt"), Err(ApiError::NotFound));
    assert_eq!(media_file_path("/music", "bad%FF.mp3"), Err(ApiError::NotFound));
    assert_eq!(media_file_path("/music", "100%.mp3"), Ok("/music/100%.mp3".to_string()));
    assert_eq!(media_file_path("/music", "..a.mp3"), Ok("/music/..a.mp3".to_string()));
    assert_eq!(media_file_path("/music", "a/../b.mp3"), Ok("/music/b.mp3".to_string()));
    assert_eq!(media_file_path("/music", "a%2F..%2F..%2Fb.mp3"), Err(ApiError::NotFound));
    assert_eq!(media_file_path("/music", "x/./y//z.ogg"), Ok("/music/x/y/z.ogg".to_string()));
    assert_eq!(media_file_path("/music", "a.mp3/.."), Err(ApiError::NotFound));
}

#[test]
fn media_extensions_allowed() {
    for ext in ["mp3", "mp4", "m4a", "wma", "aac", "ogg", "flac", "alac", "aiff", "wav"] {
        assert!(has_media_extension(&format!("x.{}", ext)));
    }
    assert!(!has_media_extension("mp3"));
    assert!(!has_media_extension("x.mp33"));
    assert!(!has_media_extension(""));
}

#[test]
fn containment_and_join() {
    assert_eq!(normalize("a/b/c"), Some("a/b/c".to_string()));
    assert_eq!(normalize(""), Some("".to_string()));
    assert_eq!(normalize("a/..b"), Some("a/..b".to_string()));
    assert_eq!(normalize(".."), None);
    assert_eq!(normalize("a/../b"), Some("b".to_string()));
    assert_eq!(normalize("a/.."), Some("".to_string()));
    assert_eq!(normalize("a/../../b"), None);
    assert_eq!(normalize("./a//b/./c/"), Some("a/b/c".to_string()));
    assert_eq!(normalize("/a"), None);
    assert_eq!(join("/r", "x"), "/r/x");
    assert_eq!(join("/r/", "x"), "/r/x");
    assert_eq!(join("", "x"), "x");
}

#[test]
fn media_route_admits_known_speakers() {
    let e = env(false);
    let spk = PeerAddr::V4(Ipv4::new(192, 168, 1, 20));
    assert_eq!(serve_media(&e, spk, "a.mp3"), Ok("/music/a.mp3".to_string()));
    let other = PeerAddr::V4(Ipv4::new(192, 168, 1, 21));
    assert_eq!(serve_media(&env(true), other, "a.mp3"), Err(ApiError::Forbidden));
}

#[test]
fn frontend_default_document() {
    assert_eq!(frontend_file_path(""), Ok("./web/index.html".to_string()));
    assert_eq!(frontend_file_path("app.js"), Ok("./web/app.js".to_string()));
    assert_eq!(frontend_file_path("../secret"), Err(ApiError::NotFound));
    assert_eq!(frontend_file_path("css/../app.js"), Ok("./web/app.js".to_string()));
    assert_eq!(serve_frontend(&env(false), PeerAddr::V4(Ipv4::new(8, 8, 8, 8)), ""), Err(ApiError::Forbidden));
    assert_eq!(serve_frontend(&env(true), PeerAddr::V4(Ipv4::new(8, 8, 8, 8)), ""), Ok("./web/index.html".to_string()));
}

#[test]
fn canonical_paths_under_root() {
    assert!(is_under("/music", "/music"));
    assert!(is_under("/music", "/music/a.mp3"));
    assert!(is_under("/music/", "/music/a.mp3"));
    assert!(!is_under("/music", "/musicx/a.mp3"));
    assert!(!is_under("/music", "/etc/passwd"));
    assert!(!is_under("/music/a", "/music"));
}
