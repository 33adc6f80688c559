use rhap::playback::{toggle_decision, AttemptOutcome, AutoAdvance, PlaybackController, PlaybackEvent, ToggleDecision};
use rhap::retry::{RetryDecision, RetryState, RetryStep, DEFAULT_INIT_BACKOFFS_MS, MAX_IMMEDIATE};

#[test]
fn toggle_decisions() {
    assert_eq!(toggle_decision(true, true), ToggleDecision::Pause);
    assert_eq!(toggle_decision(false, true), ToggleDecision::Resume);
    assert_eq!(toggle_decision(false, false), ToggleDecision::PlaySelected);
}

#[test]
fn next_wraps_around() {
    let mut c = PlaybackController::new();
    assert_eq!(c.playing_track_index, 0);
    assert!(c.automatically_play_next);
    assert!(c.next(3));
    assert_eq!(c.playing_track_index, 1);
    assert!(c.next(3));
    assert!(c.next(3));
    assert_eq!(c.playing_track_index, 0);
    assert!(!c.next(0));
    assert_eq!(c.playing_track_index, 0);
}

#[test]
fn previous_wraps_and_replays() {
    let mut c = PlaybackController::new();
    assert!(c.previous(4, None));
    assert_eq!(c.playing_track_index, 3);
    assert!(c.previous(4, Some(5)));
    assert_eq!(c.playing_track_index, 2);
    // More than five seconds in: the same track starts again.
    assert!(c.previous(4, Some(6)));
    assert_eq!(c.playing_track_index, 2);
    assert!(!c.previous(0, None));
}

#[test]
fn next_then_previous_returns() {
    for len in 1..6usize {
        for i in 0..len {
            let mut c = PlaybackController { playing_track_index: i, automatically_play_next: true };
            c.next(len);
            c.previous(len, Some(1));
            assert_eq!(c.playing_track_index, i);
        }
    }
}

#[test]
fn play_selected_and_track_to_play() {
    let mut c = PlaybackController::new();
    assert!(!c.play_selected(None));
    assert!(c.play_selected(Some(7)));
    assert_eq!(c.playing_track_index, 7);
    assert_eq!(c.track_to_play(8), Some(7));
    assert_eq!(c.track_to_play(7), None);
}

#[test]
fn auto_advance_attempts_are_bounded() {
    let mut c = PlaybackController::new();
    assert_eq!(c.auto_advance_attempts(true, false, 3), 3);
    assert_eq!(c.auto_advance_attempts(true, false, 50), 5);
    assert_eq!(c.auto_advance_attempts(true, true, 50), 0);
    assert_eq!(c.auto_advance_attempts(false, false, 50), 0);
    c.automatically_play_next = false;
    assert_eq!(c.auto_advance_attempts(true, false, 50), 0);
}

#[test]
fn auto_advance_skips_failures() {
    let mut a = AutoAdvance::new(3);
    assert_eq!(a.record(AttemptOutcome::Failed), None);
    assert_eq!(a.record(AttemptOutcome::Changed), Some(PlaybackEvent::TrackChanged));
    let mut b = AutoAdvance::new(2);
    assert_eq!(b.record(AttemptOutcome::Failed), None);
    assert_eq!(b.record(AttemptOutcome::Failed), Some(PlaybackEvent::Unchanged));
    let mut d = AutoAdvance::new(2);
    assert_eq!(d.record(AttemptOutcome::Unchanged), Some(PlaybackEvent::Unchanged));
}

#[test]
fn retry_returns_success() {
    let mut s = RetryState::new();
    match s.step(RetryDecision::Success(42u32), "alsa: open", &DEFAULT_INIT_BACKOFFS_MS) {
        RetryStep::Finish(v) => assert_eq!(v, 42),
        _ => panic!("expected the value"),
    }
}

#[test]
fn retry_backs_off_through_the_schedule() {
    let mut s = RetryState::new();
    let mut sleeps = Vec::new();
    loop {
        match s.step(RetryDecision::<()>::BackoffRetry, "alsa: open", &DEFAULT_INIT_BACKOFFS_MS) {
            RetryStep::Sleep(ms) => sleeps.push(ms),
            RetryStep::Exhausted(m) => {
                assert_eq!(m, "alsa: open: still busy after 5 backoff retries");
                break;
            }
            _ => panic!("unexpected step"),
        }
    }
    assert_eq!(sleeps, vec![50, 100, 200, 400, 800]);
}

#[test]
fn retry_caps_immediate_retries() {
    let mut s = RetryState::new();
    let mut retries = 0;
    loop {
        match s.step(RetryDecision::<()>::ImmediateRetry, "wasapi: open", &[]) {
            RetryStep::Retry => retries += 1,
            RetryStep::Exhausted(m) => {
                assert_eq!(m, "wasapi: open: too many immediate retries (4)");
                break;
            }
            _ => panic!("unexpected step"),
        }
    }
    assert_eq!(retries, MAX_IMMEDIATE);
}

#[test]
fn retry_hands_on_fatal_errors() {
    let mut s = RetryState::new();
    match s.step(RetryDecision::<()>::Fatal(anyhow::Error::msg("boom")), "x", &DEFAULT_INIT_BACKOFFS_MS) {
        RetryStep::Fatal(e) => assert_eq!(e.to_string(), "boom"),
        _ => panic!("expected the error"),
    }
    assert_eq!(s.backoff_used, 0);
    assert_eq!(s.immediate_used, 0);
}

#[test]
fn retry_attempts_are_bounded() {
    // Alternating kinds still stop after len + MAX_IMMEDIATE retries.
    let mut s = RetryState::new();
    let mut attempts = 0;
    loop {
        attempts += 1;
        let d = if attempts % 2 == 0 { RetryDecision::<()>::ImmediateRetry } else { RetryDecision::<()>::BackoffRetry };
        match s.step(d, "x", &[1, 2]) {
            RetryStep::Sleep(_) | RetryStep::Retry => {}
            _ => break,
        }
    }
    assert!(attempts <= 2 + MAX_IMMEDIATE + 1);
}
