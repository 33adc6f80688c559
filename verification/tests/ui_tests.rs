use rhap::action::{Action, Layer};
use rhap::app_state::{action_allowed, base_layer_action, route_key, AppState, Effect, KeyRoute};
use rhap::device_selector::DeviceSelector;
use rhap::keys::{is_interrupt, media_event_action, playlist_key_action, Key, KeyInput, MediaEvent};
use rhap::playback::PlaybackEvent;
use rhap::playlist::{Playlist, TrackLabel};
use rhap::search_widget::SearchWidget;

fn key(k: Key) -> KeyInput {
    KeyInput { key: k, ctrl: false, press: true }
}

fn ctrl(c: char) -> KeyInput {
    KeyInput { key: Key::Char(c), ctrl: true, press: true }
}

fn label(title: &str, artist: &str) -> TrackLabel {
    TrackLabel { title: title.to_string(), artist: artist.to_string() }
}

fn tracks() -> Vec<TrackLabel> {
    vec![
        label("Blue in Green", "Miles Davis"),
        label("So What", "Miles Davis"),
        label("Naima", "John Coltrane"),
        label("Giant Steps", "John Coltrane"),
    ]
}

#[test]
fn playlist_search_ignores_case() {
    let p = Playlist::new(4);
    let t = tracks();
    assert_eq!(p.search(&t, "COLTRANE"), Some(2));
    assert_eq!(p.search(&t, "what"), Some(1));
    assert_eq!(p.search(&t, "nothing"), None);
    assert_eq!(p.search(&t, ""), None);
}

#[test]
fn playlist_search_next_and_prev_wrap() {
    let p = Playlist::new(4);
    let t = tracks();
    assert_eq!(p.search_next(&t, Some(2), "coltrane"), Some(3));
    assert_eq!(p.search_next(&t, Some(3), "coltrane"), Some(2));
    assert_eq!(p.search_next(&t, None, "miles"), Some(0));
    assert_eq!(p.search_prev(&t, Some(1), "miles"), Some(0));
    assert_eq!(p.search_prev(&t, Some(0), "miles"), Some(1));
    assert_eq!(p.search_prev(&t, Some(0), ""), None);
}

#[test]
fn playlist_selection_wraps() {
    let mut p = Playlist::new(3);
    assert_eq!(p.selected_index(), Some(0));
    p.select_previous();
    assert_eq!(p.selected_index(), Some(2));
    p.select_next();
    assert_eq!(p.selected_index(), Some(0));
    p.select_index(9);
    assert_eq!(p.selected_index(), Some(0));
    p.select_index(1);
    assert_eq!(p.selected_index(), Some(1));
    assert_eq!(p.songs_len(), 3);
}

#[test]
fn search_widget_edits_at_the_cursor() {
    let mut w = SearchWidget::new();
    for c in "abc".chars() {
        w.handle_input(c);
    }
    assert_eq!(w.text(), "abc");
    w.move_cursor_left();
    w.handle_backspace();
    assert_eq!(w.text(), "ac");
    assert_eq!(w.cursor_position, 1);
    w.handle_delete();
    assert_eq!(w.text(), "a");
    w.handle_delete();
    assert_eq!(w.text(), "a");
    w.move_cursor_right();
    w.move_cursor_right();
    assert_eq!(w.cursor_position, 1);
    w.clear();
    assert_eq!(w.text(), "");
    assert_eq!(w.cursor_position, 0);
}

#[test]
fn typing_then_backspace_restores_the_text() {
    let mut w = SearchWidget::new();
    for c in "mile".chars() {
        w.handle_input(c);
    }
    let before = w.text();
    w.handle_input('s');
    w.handle_backspace();
    assert_eq!(w.text(), before);
    assert_eq!(w.cursor_position, 4);
}

#[test]
fn search_widget_remembers_queries_that_found_something() {
    let mut w = SearchWidget::new();
    w.handle_input('x');
    w.set_search_result(None);
    assert_eq!(w.last_query(), "");
    w.set_search_result(Some(3));
    assert_eq!(w.last_query(), "x");
    w.clear();
    assert_eq!(w.last_query(), "x");
    assert_eq!(w.search_result_index, None);
}

#[test]
fn search_widget_keys() {
    let mut w = SearchWidget::new();
    assert!(matches!(w.handle_key_event(key(Key::Char('n'))), Action::SearchQuery(ref q) if q == "n"));
    assert!(matches!(w.handle_key_event(ctrl('n')), Action::NoOp));
    assert!(matches!(w.handle_key_event(key(Key::Backspace)), Action::SearchQuery(ref q) if q.is_empty()));
    assert!(matches!(w.handle_key_event(key(Key::Esc)), Action::PopLayer));
    w.set_search_result(Some(2));
    match w.handle_key_event(key(Key::Enter)) {
        Action::Batch(v) => assert_eq!(v, vec![Action::CommitSearch(Some(2)), Action::PopLayer]),
        other => panic!("unexpected {:?}", other),
    }
    assert!(matches!(w.handle_key_event(key(Key::Up)), Action::NoOp));
}

#[test]
fn playlist_keys() {
    assert_eq!(playlist_key_action(key(Key::Char('q'))), Action::Quit);
    assert_eq!(playlist_key_action(key(Key::Char('/'))), Action::PushLayer(Layer::Search));
    assert_eq!(playlist_key_action(key(Key::Char('o'))), Action::PushLayer(Layer::OutputSelector));
    assert_eq!(playlist_key_action(key(Key::Char('p'))), Action::PlaySelected);
    assert_eq!(playlist_key_action(ctrl('p')), Action::NoOp);
    assert_eq!(playlist_key_action(key(Key::Char(' '))), Action::TogglePlayPause);
    assert_eq!(playlist_key_action(key(Key::Char('s'))), Action::Stop);
    assert_eq!(playlist_key_action(key(Key::Char('l'))), Action::NextTrack);
    assert_eq!(playlist_key_action(key(Key::Char('h'))), Action::PreviousTrack);
    assert_eq!(playlist_key_action(key(Key::Char('k'))), Action::SelectUp);
    assert_eq!(playlist_key_action(key(Key::Down)), Action::SelectDown);
    assert_eq!(playlist_key_action(key(Key::Enter)), Action::PlaySelected);
    assert_eq!(playlist_key_action(key(Key::Char('z'))), Action::NoOp);
}

#[test]
fn base_layer_searches_on_with_the_last_query() {
    assert_eq!(base_layer_action(ctrl('n'), "naima"), Action::SearchNext("naima".to_string()));
    assert_eq!(base_layer_action(ctrl('p'), "naima"), Action::SearchPrev("naima".to_string()));
    assert_eq!(base_layer_action(key(Key::Char('n')), "naima"), Action::NoOp);
    assert_eq!(base_layer_action(key(Key::Char('l')), ""), Action::NextTrack);
}

#[test]
fn key_routing() {
    assert_eq!(route_key(ctrl('c')), KeyRoute::Interrupt);
    assert_eq!(route_key(key(Key::Char('c'))), KeyRoute::Dispatch);
    assert_eq!(route_key(KeyInput { key: Key::Char('q'), ctrl: false, press: false }), KeyRoute::Ignore);
    assert!(is_interrupt(ctrl('c')));
    assert!(!is_interrupt(key(Key::Char('c'))));
}

#[test]
fn media_keys() {
    assert_eq!(media_event_action(MediaEvent::Play), Some(Action::TogglePlayPause));
    assert_eq!(media_event_action(MediaEvent::Pause), Some(Action::TogglePlayPause));
    assert_eq!(media_event_action(MediaEvent::Next), Some(Action::NextTrack));
    assert_eq!(media_event_action(MediaEvent::Previous), Some(Action::PreviousTrack));
    assert_eq!(media_event_action(MediaEvent::Stop), Some(Action::Stop));
    assert_eq!(media_event_action(MediaEvent::Other), None);
}

#[test]
fn app_state_layers() {
    let mut s = AppState::new();
    let mut p = Playlist::new(4);
    let t = tracks();
    let mut w = SearchWidget::new();
    w.handle_input('z');
    assert_eq!(s.process_action(Action::PushLayer(Layer::Search), &mut p, &t, &mut w), vec![]);
    assert_eq!(s.top_layer(), Some(Layer::Search));
    assert_eq!(w.text(), "");
    assert_eq!(s.process_action(Action::PushLayer(Layer::OutputSelector), &mut p, &t, &mut w), vec![Effect::RefreshDevices]);
    assert_eq!(s.top_layer(), Some(Layer::OutputSelector));
    s.process_action(Action::PopLayer, &mut p, &t, &mut w);
    s.process_action(Action::PopLayer, &mut p, &t, &mut w);
    assert_eq!(s.top_layer(), None);
    s.process_action(Action::PopLayer, &mut p, &t, &mut w);
    assert_eq!(s.top_layer(), None);
}

#[test]
fn app_state_batches_apply_in_order() {
    let mut s = AppState::new();
    let mut p = Playlist::new(4);
    let t = tracks();
    let mut w = SearchWidget::new();
    let batch = Action::Batch(vec![Action::PopLayer, Action::PushLayer(Layer::Search), Action::PushLayer(Layer::Search)]);
    assert_eq!(s.process_action(batch, &mut p, &t, &mut w), vec![]);
    assert_eq!(s.layers, vec![Layer::Search, Layer::Search]);
    let nested = Action::Batch(vec![
        Action::CommitSearch(Some(3)),
        Action::PlaySelected,
        Action::Batch(vec![Action::SelectUp, Action::TogglePlayPause]),
        Action::PopLayer,
    ]);
    assert_eq!(
        s.process_action(nested, &mut p, &t, &mut w),
        vec![Effect::PlaySelected(Some(3)), Effect::TogglePlayPause(Some(2))]
    );
    assert_eq!(p.selected_index(), Some(2));
    assert_eq!(s.layers, vec![Layer::Search]);
}

#[test]
fn action_allowed_follows_the_selection() {
    let t: Vec<TrackLabel> = vec![];
    assert_eq!(action_allowed(&Action::SelectDown, None, 0, &t), (true, Some(0)));
    assert!(!action_allowed(&Action::SelectDown, Some(0), 0, &t).0);
    assert!(!action_allowed(&Action::Batch(vec![Action::SelectDown, Action::SelectUp]), None, 0, &t).0);
    assert!(action_allowed(&Action::Batch(vec![Action::PopLayer, Action::Stop]), Some(0), 0, &t).0);
    let four = tracks();
    assert_eq!(action_allowed(&Action::Batch(vec![Action::SelectUp, Action::SelectUp]), Some(0), 4, &four), (true, Some(2)));
    assert!(!action_allowed(&Action::SearchNext("x".to_string()), Some(usize::MAX), 4, &four).0);
    assert!(action_allowed(&Action::SearchNext(String::new()), Some(usize::MAX), 4, &four).0);
}

#[test]
fn app_state_search_flow() {
    let mut s = AppState::new();
    let mut p = Playlist::new(4);
    let t = tracks();
    let mut w = SearchWidget::new();
    for c in "coltrane".chars() {
        w.handle_input(c);
    }
    s.process_action(Action::SearchQuery(w.text()), &mut p, &t, &mut w);
    assert_eq!(w.search_result_index, Some(2));
    assert_eq!(w.last_query(), "coltrane");
    s.process_action(Action::CommitSearch(Some(2)), &mut p, &t, &mut w);
    assert_eq!(p.selected_index(), Some(2));
    s.process_action(Action::SearchNext("coltrane".to_string()), &mut p, &t, &mut w);
    assert_eq!(p.selected_index(), Some(3));
    s.process_action(Action::SearchPrev("miles".to_string()), &mut p, &t, &mut w);
    assert_eq!(p.selected_index(), Some(1));
    s.process_action(Action::SelectDown, &mut p, &t, &mut w);
    assert_eq!(p.selected_index(), Some(2));
    s.process_action(Action::SelectUp, &mut p, &t, &mut w);
    assert_eq!(p.selected_index(), Some(1));
}

#[test]
fn app_state_hands_on_playback_actions() {
    let mut s = AppState::new();
    let mut p = Playlist::new(1);
    let t = vec![label("a", "b")];
    let mut w = SearchWidget::new();
    assert_eq!(s.process_action(Action::TogglePlayPause, &mut p, &t, &mut w), vec![Effect::TogglePlayPause(Some(0))]);
    assert_eq!(s.process_action(Action::Stop, &mut p, &t, &mut w), vec![Effect::Stop]);
    assert_eq!(s.process_action(Action::Quit, &mut p, &t, &mut w), vec![Effect::Quit]);
    assert_eq!(s.process_action(Action::ChangeOutputDevice(2), &mut p, &t, &mut w), vec![Effect::ChangeOutputDevice(2)]);
    assert_eq!(
        s.process_action(Action::Batch(vec![Action::NextTrack, Action::PopLayer, Action::PlaySelected]), &mut p, &t, &mut w),
        vec![Effect::NextTrack, Effect::PlaySelected(Some(0))]
    );
}

#[test]
fn playback_results_update_the_status_line() {
    let mut s = AppState::new();
    assert!(!s.record_playback_result(Err("cannot open".to_string())));
    assert_eq!(s.status_message.as_deref(), Some("cannot open"));
    assert!(!s.record_playback_result(Ok(PlaybackEvent::Unchanged)));
    assert_eq!(s.status_message.as_deref(), Some("cannot open"));
    assert!(s.record_playback_result(Ok(PlaybackEvent::TrackChanged)));
    assert_eq!(s.status_message, None);
}

#[test]
fn device_selector_picks_by_name() {
    let mut d = DeviceSelector::new();
    assert_eq!(d.marked_name(), "none");
    d.refresh_device_list(vec!["DAC".to_string(), "Speakers".to_string()], "Speakers".to_string());
    assert_eq!(d.marked_name(), "Speakers");
    d.select_next();
    match d.handle_key_event(key(Key::Enter)) {
        Action::Batch(v) => assert_eq!(v, vec![Action::ChangeOutputDevice(1), Action::PopLayer]),
        other => panic!("unexpected {:?}", other),
    }
    assert_eq!(d.selected.as_deref(), Some("Speakers"));
    d.refresh_device_list(vec!["DAC".to_string()], "DAC".to_string());
    assert_eq!(d.selected, None);
    assert_eq!(d.highlighted, Some(0));
}

#[test]
fn device_selector_rows_wrap() {
    let mut d = DeviceSelector::new();
    d.refresh_device_list(vec!["a".to_string(), "b".to_string(), "c".to_string()], "a".to_string());
    assert_eq!(d.handle_key_event(key(Key::Up)), Action::NoOp);
    assert_eq!(d.highlighted, Some(2));
    assert_eq!(d.handle_key_event(key(Key::Char('j'))), Action::NoOp);
    assert_eq!(d.highlighted, Some(0));
    assert_eq!(d.handle_key_event(key(Key::Esc)), Action::PopLayer);
    assert_eq!(d.handle_key_event(key(Key::Char('q'))), Action::PopLayer);
}

#[test]
fn device_selector_row_past_the_list_chooses_the_default() {
    let mut d = DeviceSelector::new();
    d.refresh_device_list(vec!["a".to_string()], "fallback".to_string());
    d.highlighted = Some(4);
    d.set_selected_device();
    assert_eq!(d.selected.as_deref(), Some("fallback"));
    d.highlighted = None;
    d.set_selected_device();
    assert_eq!(d.selected, None);
}

#[test]
fn search_next_without_selection_finds_the_first_match() {
    let p = Playlist::new(4);
    let t = tracks();
    for q in ["miles", "coltrane", "giant", "so"] {
        assert_eq!(p.search_next(&t, None, q), p.search(&t, q));
    }
}
