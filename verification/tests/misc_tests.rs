use rhap::audio::{BitsPerSample, Capabilities, SampleRate};
use rhap::device_manager::{AudioDevice, HostAudioApiManager};
use rhap::events::{keyboard_event as classic_keyboard_event, KeyboardEvent as ClassicEvent};
use rhap::keyboard_manager::{keyboard_event, KeyboardEvent};
use rhap::keys::{Key, KeyInput};
use rhap::layout::{
    bottom_right_fixed_size, centered_fixed_size_rect, centered_rect, cover_and_text_areas, cover_width,
    playlist_areas, text_and_progress_areas, Area,
};
use rhap::media::{
    cover_art_suffix, cover_url, create_notifications, toast_xml, xml_escape, MediaSync, NotificationContent,
    NotificationsError, PlaybackStatus,
};
use rhap::musictrack::{choose_cover, scan_patterns, shuffled_playlist, MusicTrack, ProbedFacts};
use rhap::paths::{device_listing, wsl_path_to_windows};
use rhap::view::{
    bits_label, format_label, rate_label,
    detail_labels, empty_width, is_even_row, panel_content, playlist_title, progress_bar_width, row_marker,
    scrollbar_state, PanelContent, RowMarker,
};

fn press(k: Key) -> KeyInput {
    KeyInput { key: k, ctrl: false, press: true }
}

#[test]
fn xml_escaping() {
    assert_eq!(xml_escape("Simon & Garfunkel <live> \"quoted\" 'single'"),
        "Simon &amp; Garfunkel &lt;live&gt; &quot;quoted&quot; &apos;single&apos;");
    assert_eq!(xml_escape("plain text"), "plain text");
    assert_eq!(xml_escape(""), "");
}

#[test]
fn toast_document() {
    let content = NotificationContent { title: "A & B", artist: "C", album: "D", cover_art_path: None };
    let expected = "<toast>\n  <visual>\n    <binding template=\"ToastGeneric\">\n      \n      <text>A &amp; B</text>\n      <text>C \u{2014} D</text>\n    </binding>\n  </visual>\n  <audio silent=\"true\" />\n</toast>";
    assert_eq!(toast_xml(&content), expected);
    let with_cover = NotificationContent { title: "T", artist: "A", album: "B", cover_art_path: Some("C:\\x<1>.png") };
    assert!(toast_xml(&with_cover).contains("<image placement=\"appLogoOverride\" src=\"C:\\x&lt;1&gt;.png\" />"));
}

#[test]
fn notifications_are_unsupported_here() {
    match create_notifications() {
        Err(e) => {
            assert_eq!(e, NotificationsError::Unsupported);
            assert_eq!(e.message(), "Notifications not supported on this platform");
        }
        Ok(_) => panic!("no backend expected"),
    }
}

#[test]
fn cover_files() {
    assert_eq!(cover_art_suffix(Some("image/png")), ".png");
    assert_eq!(cover_art_suffix(Some("image/jpeg")), ".jpg");
    assert_eq!(cover_art_suffix(None), ".jpg");
    assert_eq!(cover_url("/tmp/rhap_cover_1.jpg"), "file:///tmp/rhap_cover_1.jpg");
    assert_eq!(cover_url("\\\\?\\C:\\Temp\\c.png"), "file://C:\\Temp\\c.png");
}

#[test]
fn media_sync_pushes_metadata_once_per_track() {
    let mut m = MediaSync::new();
    let p = m.sync_state(false, false);
    assert!(!p.push_metadata);
    assert_eq!(p.status, PlaybackStatus::Stopped);
    m.on_track_changed();
    let p = m.sync_state(true, true);
    assert!(p.push_metadata);
    assert_eq!(p.status, PlaybackStatus::Playing);
    let p = m.sync_state(true, false);
    assert!(!p.push_metadata);
    assert_eq!(p.status, PlaybackStatus::Paused);
    m.clear();
    assert!(m.metadata_dirty);
}

#[test]
fn tracks_from_paths() {
    let t = MusicTrack::from_path("/music/Miles Davis/So What.flac".to_string());
    assert_eq!(t.title, "So What");
    assert!(!t.probed);
    assert_eq!(t.sample, SampleRate(0));
    let u = MusicTrack::from_path("/".to_string());
    assert_eq!(u.title, "Unknown");
}

#[test]
fn tracks_from_probes() {
    let facts = ProbedFacts {
        sample_rate: None,
        channels: None,
        bits_per_sample: Some(24),
        title: Some("Naima".to_string()),
        artist: None,
        album: None,
        duration_secs: 261,
        cover: Some((vec![1, 2, 3], "image/png".to_string())),
    };
    let t = MusicTrack::from_probe("n.flac".to_string(), facts);
    assert_eq!(t.sample, SampleRate(44100));
    assert_eq!(t.channels, 2);
    assert_eq!(t.bits_per_sample, BitsPerSample(24));
    assert_eq!(t.title, "Naima");
    assert_eq!(t.artist, "Unknown Artist");
    assert_eq!(t.album, "Unknown Album");
    assert_eq!(t.duration_secs, 261);
    assert!(t.probed);
    assert_eq!(t.cover_art, Some(vec![1, 2, 3]));
    assert_eq!(t.cover_art_mime.as_deref(), Some("image/png"));
}

#[test]
fn cover_choice() {
    assert_eq!(choose_cover(&vec![false, true, true]), Some(1));
    assert_eq!(choose_cover(&vec![false, false]), Some(0));
    assert_eq!(choose_cover(&vec![]), None);
}

#[test]
fn wsl_paths() {
    assert_eq!(wsl_path_to_windows("/mnt/c/Users/me/Music"), "C:\\Users\\me\\Music");
    assert_eq!(wsl_path_to_windows("/mnt/d/"), "D:\\");
    assert_eq!(wsl_path_to_windows("/mnt/cd/Music"), "/mnt/cd/Music");
    assert_eq!(wsl_path_to_windows("/mnt/c"), "/mnt/c");
    assert_eq!(wsl_path_to_windows("/home/me/Music"), "/home/me/Music");
    assert_eq!(wsl_path_to_windows("/mnt/1/x"), "/mnt/1/x");
}

#[test]
fn device_listings() {
    let caps = Capabilities { sample_rates: vec![SampleRate(44100), SampleRate(192000)], bits_per_samples: vec![BitsPerSample(16), BitsPerSample(24)] };
    assert_eq!(device_listing(true, 0, "USB DAC", &caps), vec![
        "-> [0]: USB DAC".to_string(),
        "    Max bits per sample: 24bits".to_string(),
        "    Max sample rate: 192000Hz".to_string(),
    ]);
    assert_eq!(device_listing(false, 3, "HDMI", &Capabilities::empty()), vec!["   [3]: HDMI".to_string()]);
}

#[test]
fn device_manager_lists_the_default_device() {
    let m = HostAudioApiManager::new();
    assert_eq!(m.get_audio_apis(), vec!["default".to_string()]);
    let d = m.get_devices();
    assert_eq!(d.len(), 1);
    assert_eq!(d[0].get_name(), "default");
    assert_eq!(d[0].get_id(), "default");
    assert!(d[0].is_default());
    assert_eq!(d[0].get_capabilities(), vec!["playback".to_string(), "capture".to_string()]);
}

#[test]
fn keyboard_events_by_mode() {
    assert_eq!(keyboard_event(true, press(Key::Char('q'))), Some(KeyboardEvent::Char('q')));
    assert_eq!(keyboard_event(true, KeyInput { key: Key::Char('n'), ctrl: true, press: true }), Some(KeyboardEvent::NextMatch));
    assert_eq!(keyboard_event(true, press(Key::Esc)), Some(KeyboardEvent::Escape));
    assert_eq!(keyboard_event(false, press(Key::Char('q'))), Some(KeyboardEvent::Quit));
    assert_eq!(keyboard_event(false, KeyInput { key: Key::Char('q'), ctrl: false, press: false }), None);
    assert_eq!(classic_keyboard_event(press(Key::Char('p'))), Some(ClassicEvent::Play));
    assert_eq!(classic_keyboard_event(press(Key::Char(' '))), Some(ClassicEvent::Pause));
    assert_eq!(classic_keyboard_event(press(Key::Char('o'))), Some(ClassicEvent::DeviceSelector));
    assert_eq!(classic_keyboard_event(press(Key::Char('x'))), None);
}

#[test]
fn playlist_rows() {
    assert_eq!(row_marker(2, 2, true, false), RowMarker::Paused);
    assert_eq!(row_marker(2, 2, false, true), RowMarker::Playing);
    assert_eq!(row_marker(2, 2, false, false), RowMarker::Blank);
    assert_eq!(row_marker(1, 2, false, true), RowMarker::Blank);
    assert!(is_even_row(4));
    assert!(!is_even_row(5));
    assert_eq!(playlist_title(42), "Playlist - 42");
    assert_eq!(scrollbar_state(10, Some(3)), (9, 3));
    assert_eq!(scrollbar_state(0, None), (0, 0));
}

#[test]
fn now_playing_panel() {
    assert_eq!(panel_content(true, true), PanelContent::Track);
    assert_eq!(panel_content(false, true), PanelContent::Status);
    assert_eq!(panel_content(false, false), PanelContent::Idle);
    assert_eq!(detail_labels(false), vec!["Title: ", "Artist: ", "Info: "]);
    assert_eq!(detail_labels(true), vec!["Title: ", "Artist: ", "Info: ", "Playing as: "]);
    assert_eq!(progress_bar_width(80), 60);
    assert_eq!(progress_bar_width(12), 0);
    assert_eq!(empty_width(60, 15), 45);
    assert_eq!(empty_width(60, 70), 0);
}

#[test]
fn layouts() {
    let screen = Area { x: 0, y: 0, width: 100, height: 40 };
    assert_eq!(bottom_right_fixed_size(40, 6, screen), Area { x: 60, y: 34, width: 40, height: 6 });
    assert_eq!(centered_fixed_size_rect(40, 10, screen), Area { x: 30, y: 15, width: 40, height: 10 });
    assert_eq!(centered_rect(50, 50, screen), Area { x: 25, y: 10, width: 50, height: 20 });
    let p = playlist_areas(screen);
    assert_eq!(p.table, Area { x: 0, y: 0, width: 99, height: 30 });
    assert_eq!(p.scrollbar, Area { x: 99, y: 0, width: 1, height: 30 });
    assert_eq!(p.now_playing, Area { x: 0, y: 30, width: 100, height: 9 });
    assert_eq!(p.status_line, Area { x: 0, y: 39, width: 100, height: 1 });
    let inner = Area { x: 1, y: 31, width: 98, height: 7 };
    assert_eq!(cover_width(inner), 14);
    let (cover, text) = cover_and_text_areas(inner);
    assert_eq!(cover, Area { x: 1, y: 31, width: 14, height: 7 });
    assert_eq!(text, Area { x: 15, y: 31, width: 84, height: 7 });
    let (info, progress) = text_and_progress_areas(text);
    assert_eq!(info, Area { x: 15, y: 31, width: 84, height: 6 });
    assert_eq!(progress, Area { x: 15, y: 37, width: 84, height: 1 });
    assert_eq!(text_and_progress_areas(Area { x: 0, y: 5, width: 3, height: 0 }).1, Area { x: 0, y: 5, width: 3, height: 1 });
}

#[test]
fn shuffled_playlist_keeps_every_file_once() {
    let files: Vec<String> = (0..20).map(|i| format!("/music/track{:02}.flac", i)).collect();
    let tracks = shuffled_playlist(files.clone());
    assert_eq!(tracks.len(), files.len());
    let mut paths: Vec<String> = tracks.iter().map(|t| t.path.clone()).collect();
    assert!(tracks.iter().all(|t| !t.probed));
    assert_eq!(tracks.iter().find(|t| t.path == "/music/track07.flac").map(|t| t.title.as_str()), Some("track07"));
    paths.sort();
    assert_eq!(paths, files);
}

#[test]
fn scan_patterns_cover_every_extension() {
    let p = scan_patterns("/music");
    assert_eq!(p.len(), 11);
    assert_eq!(p[0], "/music/**/*.flac");
    assert_eq!(p[10], "/music/**/*.caf");
}

#[test]
fn format_labels() {
    assert_eq!(rate_label(SampleRate(44100)), "44.1kHz");
    assert_eq!(rate_label(SampleRate(96000)), "96kHz");
    assert_eq!(rate_label(SampleRate(11025)), "11.0kHz");
    assert_eq!(rate_label(SampleRate(22050)), "22.1kHz");
    assert_eq!(rate_label(SampleRate(352800)), "352.8kHz");
    // Half-way hundredths round as the nearest float lies.
    assert_eq!(rate_label(SampleRate(44150)), "44.1kHz");
    assert_eq!(rate_label(SampleRate(1350)), "1.4kHz");
    assert_eq!(rate_label(SampleRate(1250)), "1.2kHz");
    assert_eq!(rate_label(SampleRate(1750)), "1.8kHz");
    for rate in [8000u32, 11025, 22050, 44150, 1250, 1350, 250, 44950, 96050, 176450] {
        assert_eq!(rate_label(SampleRate(rate)), format!("{:.1}kHz", rate as f64 / 1000.0).replace(".0kHz", if rate % 1000 == 0 { "kHz" } else { ".0kHz" }));
    }
    assert_eq!(bits_label(BitsPerSample(24)), "24bit");
    assert_eq!(format_label(BitsPerSample(24), SampleRate(44100)), "24bit - 44.1kHz");
}
