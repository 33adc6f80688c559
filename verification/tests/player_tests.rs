use rhap::audio::{BitsPerSample, Capabilities, SampleRate, StreamParams};
use rhap::player::{
    after_push, check_native_format, gapless_continues, gapless_ready, decoder_end, decoder_step, format_time, gapless_compatible,
    needs_resampling, output_format_changed, raises_end_of_stream, sample_kind, DecoderEnd, DecoderStep,
    NativeFormatError, PacketRead, SampleKind, WriteProgress,
};
use rhap::player_state::{AtomicPlayerState, PlayerState};
use std::sync::atomic::Ordering;

fn params(rate: u32, bits: u16) -> StreamParams {
    StreamParams {
        channels: 2,
        samplerate: SampleRate(rate),
        bits_per_sample: BitsPerSample(bits),
        exclusive: true,
        pollmode: false,
    }
}

#[test]
fn format_time_under_a_minute() {
    assert_eq!(format_time(0), "00:00");
    assert_eq!(format_time(7), "00:07");
    assert_eq!(format_time(59), "00:59");
}

#[test]
fn format_time_minutes_and_hours() {
    assert_eq!(format_time(60), "01:00");
    assert_eq!(format_time(754), "12:34");
    assert_eq!(format_time(3599), "59:59");
    assert_eq!(format_time(3600), "1:00:00");
    assert_eq!(format_time(3 * 3600 + 5 * 60 + 9), "3:05:09");
    assert_eq!(format_time(100 * 3600), "100:00:00");
}

#[test]
fn native_format_checks() {
    let src = params(44100, 24);
    assert_eq!(check_native_format(&src, &params(48000, 24), false),
        Err(NativeFormatError::WouldResample { from_rate: SampleRate(44100), to_rate: SampleRate(48000) }));
    assert_eq!(check_native_format(&src, &params(44100, 16), false),
        Err(NativeFormatError::WouldDownconvert { from_bits: BitsPerSample(24), to_bits: BitsPerSample(16) }));
    assert_eq!(check_native_format(&src, &params(44100, 32), false), Ok(()));
    assert_eq!(check_native_format(&src, &params(48000, 16), true), Ok(()));
}

#[test]
fn output_changes() {
    assert!(!output_format_changed(&params(44100, 16), &params(44100, 16)));
    assert!(output_format_changed(&params(44100, 16), &params(44100, 24)));
    assert!(needs_resampling(&params(44100, 16), &params(48000, 16)));
    assert!(!needs_resampling(&params(44100, 16), &params(44100, 24)));
}

#[test]
fn gapless_needs_an_open_stream_with_the_same_parameters() {
    let caps = Capabilities { sample_rates: vec![SampleRate(44100), SampleRate(96000)], bits_per_samples: vec![BitsPerSample(24)] };
    let current = params(44100, 24);
    assert!(gapless_compatible(true, Some(&caps), Some(current), &params(44100, 16)));
    assert!(!gapless_compatible(true, Some(&caps), Some(current), &params(96000, 24)));
    assert!(!gapless_compatible(false, Some(&caps), Some(current), &params(44100, 24)));
    assert!(!gapless_compatible(true, None, Some(current), &params(44100, 24)));
    assert!(!gapless_compatible(true, Some(&caps), None, &params(44100, 24)));
}

#[test]
fn sample_kinds() {
    assert_eq!(sample_kind(BitsPerSample(16)), Some(SampleKind::I16));
    assert_eq!(sample_kind(BitsPerSample(24)), Some(SampleKind::I24));
    assert_eq!(sample_kind(BitsPerSample(32)), Some(SampleKind::F32));
    assert_eq!(sample_kind(BitsPerSample(8)), None);
}

#[test]
fn decoder_steps_and_ends() {
    assert_eq!(decoder_step(PlayerState::Playing, PacketRead::Packet), DecoderStep::Decode);
    assert_eq!(decoder_step(PlayerState::Paused, PacketRead::ResetRequired), DecoderStep::Reset);
    assert_eq!(decoder_step(PlayerState::Playing, PacketRead::EndOfFile), DecoderStep::Finish);
    assert_eq!(decoder_step(PlayerState::Playing, PacketRead::Failed), DecoderStep::Fail);
    assert_eq!(decoder_step(PlayerState::Stopped, PacketRead::Packet), DecoderStep::Finish);
    assert_eq!(decoder_end(true, PlayerState::Playing), DecoderEnd::EndOfTrack);
    assert_eq!(decoder_end(true, PlayerState::Stopped), DecoderEnd::Stopped);
    assert_eq!(decoder_end(false, PlayerState::Playing), DecoderEnd::Error);
    assert!(!raises_end_of_stream(DecoderEnd::EndOfTrack));
    assert!(raises_end_of_stream(DecoderEnd::Stopped));
    assert!(raises_end_of_stream(DecoderEnd::Error));
}

#[test]
fn write_progress() {
    assert_eq!(after_push(0, 10, 10), (10, WriteProgress::Finished));
    assert_eq!(after_push(2, 3, 10), (5, WriteProgress::Partial));
    assert_eq!(after_push(5, 0, 10), (5, WriteProgress::Stalled));
}

#[test]
fn player_state_codes_round_trip() {
    for s in [PlayerState::Stopped, PlayerState::Playing, PlayerState::Paused] {
        assert_eq!(PlayerState::from_u8(s.to_u8()), s);
    }
    assert_eq!(PlayerState::Playing.to_u8(), 1);
    assert_eq!(PlayerState::from_u8(9), PlayerState::Stopped);
}

#[test]
fn atomic_player_state_transitions() {
    let a = AtomicPlayerState::new(PlayerState::Stopped);
    assert_eq!(a.load(Ordering::Relaxed), PlayerState::Stopped);
    a.store(PlayerState::Playing, Ordering::Release);
    assert_eq!(a.transition(PlayerState::Playing, PlayerState::Paused), Ok(()));
    assert_eq!(a.load(Ordering::Acquire), PlayerState::Paused);
    assert_eq!(a.transition(PlayerState::Playing, PlayerState::Paused), Err(PlayerState::Paused));
}

#[test]
fn native_format_messages() {
    let e = check_native_format(&params(44100, 24), &params(48000, 24), false).unwrap_err();
    assert_eq!(e.message(), "Device does not support 44.1kHz natively (would resample to 48kHz). Use --resample to allow.");
    let d = check_native_format(&params(44100, 24), &params(44100, 16), false).unwrap_err();
    assert_eq!(d.message(), "Device does not support 24bit natively (would downconvert to 16bit). Use --resample to allow.");
}

#[test]
fn gapless_needs_a_finished_decoder_at_the_end_of_its_track() {
    assert!(gapless_ready(true, Some(true)));
    assert!(!gapless_ready(true, Some(false)));
    assert!(!gapless_ready(true, None));
    assert!(!gapless_ready(false, Some(true)));
    assert!(gapless_continues(Some(DecoderEnd::EndOfTrack)));
    assert!(!gapless_continues(Some(DecoderEnd::Stopped)));
    assert!(!gapless_continues(None));
}
