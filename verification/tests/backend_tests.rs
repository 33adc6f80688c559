use rhap::audio::{BitsPerSample, Capabilities, SampleRate, StreamParams};
use rhap::host::{pipewire_socket_path, Host};
use rhap::pipewire::{
    alsa_path_from_link_target, bits_to_spa_format, card_id_from_object_path, choose_sink, clock_force_rate_args,
    command_effect, default_flags, finish_cycle, frame_bytes, is_audio_sink, node_rate_property, parse_priority,
    plan_cycle, ring_bytes, sink_labels, stream_properties, CycleOutput, CyclePlan, Device as PwDevice, SinkSelectError, SpaFormat,
    StreamCommand,
};
use rhap::retry::RetryKind;
use rhap::wasapi::{
    aligned_period_frames, available_buffer_frames, calculate_period_100ns, classify_init_error, device_state_label, host_error,
    init_failure_message, init_request, init_retry_kind, output_step, period_alignment_bytes, render_bytes,
    share_mode, ClientStart, InitFailure, OutputStep, ShareMode, SubFormat, WaveFormat, STREAMFLAGS_EVENTCALLBACK,
};

fn params(channels: u8, rate: u32, bits: u16) -> StreamParams {
    StreamParams { channels, samplerate: SampleRate(rate), bits_per_sample: BitsPerSample(bits), exclusive: true, pollmode: false }
}

#[test]
fn all_possible_formats() {
    let all = Capabilities::all_possible();
    assert_eq!(all.sample_rates.first(), Some(&SampleRate(8000)));
    assert_eq!(all.sample_rates.last(), Some(&SampleRate(768000)));
    assert_eq!(all.sample_rates.len(), 13);
    assert_eq!(all.bits_per_samples, vec![BitsPerSample(16), BitsPerSample(24), BitsPerSample(32)]);
}

#[test]
fn adjust_keeps_supported_formats() {
    let caps = Capabilities { sample_rates: vec![SampleRate(44100), SampleRate(96000)], bits_per_samples: vec![BitsPerSample(16), BitsPerSample(24)] };
    let a = params(2, 44100, 24).adjust_with_capabilities(&caps);
    assert_eq!(a, params(2, 44100, 24));
}

#[test]
fn adjust_falls_back_to_the_highest_format() {
    let caps = Capabilities { sample_rates: vec![SampleRate(44100), SampleRate(96000)], bits_per_samples: vec![BitsPerSample(16), BitsPerSample(24)] };
    let a = params(2, 192000, 32).adjust_with_capabilities(&caps);
    assert_eq!(a.samplerate, SampleRate(96000));
    assert_eq!(a.bits_per_sample, BitsPerSample(24));
    // Adjusting again changes nothing.
    assert_eq!(a.adjust_with_capabilities(&caps), a);
    let none = Capabilities::empty();
    assert_eq!(params(2, 192000, 32).adjust_with_capabilities(&none), params(2, 192000, 32));
}

#[test]
fn add_supported_keeps_first_order_without_repeats() {
    let mut c = Capabilities::empty();
    c.add_supported(SampleRate(48000), BitsPerSample(24));
    c.add_supported(SampleRate(44100), BitsPerSample(24));
    c.add_supported(SampleRate(48000), BitsPerSample(16));
    assert_eq!(c.sample_rates, vec![SampleRate(48000), SampleRate(44100)]);
    assert_eq!(c.bits_per_samples, vec![BitsPerSample(24), BitsPerSample(16)]);
}

#[test]
fn hosts_by_name() {
    assert_eq!(Host::new("alsa", true, true), Host::Alsa(rhap::alsa::Host { high_priority_mode: true }));
    assert_eq!(Host::new("pipewire", false, false), Host::PipeWire(rhap::pipewire::Host));
    assert_eq!(Host::new("wasapi", false, true), Host::PipeWire(rhap::pipewire::Host));
    assert_eq!(Host::new("", false, false), Host::Alsa(rhap::alsa::Host { high_priority_mode: false }));
    assert_eq!(pipewire_socket_path("/run/user/1000"), "/run/user/1000/pipewire-0");
}

#[test]
fn pipewire_formats_and_sizes() {
    assert_eq!(bits_to_spa_format(BitsPerSample(16)), Ok(SpaFormat::S16LE));
    assert_eq!(bits_to_spa_format(BitsPerSample(24)), Ok(SpaFormat::S24LE));
    assert_eq!(bits_to_spa_format(BitsPerSample(32)), Ok(SpaFormat::F32LE));
    assert_eq!(bits_to_spa_format(BitsPerSample(12)), Err(12));
    assert_eq!(frame_bytes(&params(2, 48000, 24)), 6);
    assert_eq!(ring_bytes(&params(2, 192000, 32)), 384000);
    assert_eq!(ring_bytes(&params(1, 8000, 16)), 65536);
}

#[test]
fn pipewire_cycles() {
    assert_eq!(plan_cycle(1000, 600, 6, false), CyclePlan::Read { bytes: 600 });
    assert_eq!(plan_cycle(1000, 604, 6, false), CyclePlan::Read { bytes: 600 });
    assert_eq!(plan_cycle(4, 600, 6, true), CyclePlan::ReadTailAndPad { bytes: 4 });
    assert_eq!(plan_cycle(0, 600, 6, true), CyclePlan::FinishWithSilence);
    assert_eq!(plan_cycle(4, 600, 6, false), CyclePlan::Silence);
    assert_eq!(finish_cycle(CyclePlan::Read { bytes: 600 }, 600, 604, 6),
        CycleOutput { silence_from: 604, chunk_offset: 0, chunk_stride: 6, chunk_size: 600, notify: true, finish: false });
    assert_eq!(finish_cycle(CyclePlan::ReadTailAndPad { bytes: 4 }, 4, 600, 6),
        CycleOutput { silence_from: 4, chunk_offset: 0, chunk_stride: 6, chunk_size: 600, notify: true, finish: false });
    assert_eq!(finish_cycle(CyclePlan::FinishWithSilence, 0, 600, 6),
        CycleOutput { silence_from: 0, chunk_offset: 0, chunk_stride: 6, chunk_size: 600, notify: false, finish: true });
    assert_eq!(finish_cycle(CyclePlan::Silence, 0, 600, 8),
        CycleOutput { silence_from: 0, chunk_offset: 0, chunk_stride: 8, chunk_size: 600, notify: false, finish: false });
}

#[test]
fn pipewire_object_paths() {
    assert_eq!(card_id_from_object_path("alsa:acp:DAC:1:playback").as_deref(), Some("DAC"));
    assert_eq!(card_id_from_object_path("alsa:acp:DAC"), None);
    assert_eq!(card_id_from_object_path("bluez:acp:X:1"), None);
    assert_eq!(alsa_path_from_link_target("card3").as_deref(), Some("hw:3,0"));
    assert_eq!(alsa_path_from_link_target("cardX"), None);
}

#[test]
fn pipewire_sinks() {
    assert!(is_audio_sink(Some("Audio/Sink")));
    assert!(!is_audio_sink(Some("Audio/Source")));
    assert!(!is_audio_sink(None));
    assert_eq!(parse_priority(Some("1009")), 1009);
    assert_eq!(parse_priority(Some("high")), 0);
    assert_eq!(parse_priority(None), 0);
    let (name, desc) = sink_labels(Some("alsa_output.usb"), None, Some("DAC"));
    assert_eq!(name, "alsa_output.usb");
    assert_eq!(desc, "DAC");
    let (name, desc) = sink_labels(None, None, None);
    assert_eq!(name, "unknown");
    assert_eq!(desc, "unknown");
    assert_eq!(default_flags(&vec![5, 9, 9, 1]), vec![false, true, true, false]);
    assert_eq!(choose_sink(&vec![5, 9, 9, 1], None), Ok((2, true)));
    assert_eq!(choose_sink(&vec![5, 9, 9, 1], Some(0)), Ok((0, false)));
    assert_eq!(choose_sink(&vec![5, 9], Some(2)), Err(SinkSelectError::IndexOutOfRange(2)));
    assert_eq!(choose_sink(&vec![], None), Err(SinkSelectError::NoSinks));
}

#[test]
fn pipewire_commands_and_properties() {
    assert_eq!(command_effect(StreamCommand::Cork(true)), (Some(false), false));
    assert_eq!(command_effect(StreamCommand::Cork(false)), (Some(true), false));
    assert_eq!(command_effect(StreamCommand::Quit), (None, true));
    assert_eq!(node_rate_property(44100), "1/44100");
    let shared = stream_properties(48000, false);
    assert_eq!(shared.len(), 6);
    assert_eq!(shared[5], ("node.rate".to_string(), "1/48000".to_string()));
    let exclusive = stream_properties(96000, true);
    assert_eq!(exclusive[6..].to_vec(), vec![
        ("node.passthrough".to_string(), "true".to_string()),
        ("node.exclusive".to_string(), "true".to_string()),
        ("node.force-rate".to_string(), "96000".to_string()),
    ]);
    assert_eq!(clock_force_rate_args(96000), vec!["-n", "settings", "0", "clock.force-rate", "96000"]);
}

#[test]
fn pipewire_device_capabilities() {
    let with_alsa = PwDevice::new(40, "DAC".to_string(), true, Some("hw:1,0".to_string()));
    assert!(with_alsa.is_default());
    assert_eq!(with_alsa.name(), "DAC");
    let caps = with_alsa.get_capabilities(Some((vec![SampleRate(96000)], vec![BitsPerSample(24)])));
    assert_eq!(caps.sample_rates, vec![SampleRate(96000)]);
    let empty = with_alsa.get_capabilities(Some((vec![], vec![BitsPerSample(24)])));
    assert_eq!(empty.sample_rates.len(), 13);
    let bluetooth = PwDevice::new(41, "Headset".to_string(), false, None);
    assert_eq!(bluetooth.get_capabilities(Some((vec![SampleRate(96000)], vec![BitsPerSample(24)]))).sample_rates.len(), 13);
}

#[test]
fn wave_formats() {
    let f = WaveFormat::new(BitsPerSample(24), SampleRate(96000), 2);
    assert_eq!(f.block_align, 6);
    assert_eq!(f.avg_bytes_per_sec, 576000);
    assert_eq!(f.channels, 2);
    assert_eq!(f.channel_mask, 0b11);
    assert_eq!(f.sub_format, SubFormat::Pcm);
    assert_eq!(f.cb_size, 22);
    assert_eq!(f.format_tag, 0xFFFE);
    let g = WaveFormat::from_params(&params(8, 48000, 32));
    assert_eq!(g.sub_format, SubFormat::IeeeFloat);
    assert_eq!(g.channel_mask, 0xFF);
    assert_eq!(WaveFormat::new(BitsPerSample(16), SampleRate(48000), 19).channel_mask, 0);
    assert_eq!(WaveFormat::new(BitsPerSample(16), SampleRate(48000), 18).channel_mask, (1 << 18) - 1);
}

#[test]
fn wasapi_init() {
    assert_eq!(share_mode(true), ShareMode::Exclusive);
    let r = init_request(ShareMode::Shared, false, 100_000);
    assert_eq!(r.periodicity, 0);
    assert_eq!(r.buffer_duration, 100_000);
    assert_eq!(r.stream_flags, STREAMFLAGS_EVENTCALLBACK);
    let e = init_request(ShareMode::Exclusive, true, 30_000);
    assert_eq!(e.periodicity, 30_000);
    assert_eq!(e.stream_flags, 0);
    assert!(!e.needs_event_handle);
    assert!(r.needs_event_handle);
}

#[test]
fn wasapi_init_errors() {
    assert_eq!(classify_init_error(0x8889_0019), InitFailure::BufferNotAligned);
    assert_eq!(classify_init_error(0x8889_000A), InitFailure::Busy);
    assert_eq!(classify_init_error(0x8889_000F), InitFailure::Busy);
    assert_eq!(classify_init_error(0x8007_0057), InitFailure::InvalidArgument);
    assert_eq!(classify_init_error(0x8889_0008), InitFailure::UnsupportedFormat);
    assert_eq!(classify_init_error(0x8889_000E), InitFailure::ExclusiveModeNotAllowed);
    assert_eq!(classify_init_error(0x8000_4005), InitFailure::Other);
    assert_eq!(init_failure_message(InitFailure::InvalidArgument), Some("wasapi: initialize: invalid argument"));
    assert_eq!(init_failure_message(InitFailure::Busy), None);
    assert_eq!(init_retry_kind(InitFailure::BufferNotAligned), RetryKind::Immediate);
    assert_eq!(init_retry_kind(InitFailure::Busy), RetryKind::Backoff);
    assert_eq!(init_retry_kind(InitFailure::Other), RetryKind::Fatal);
    assert_eq!(host_error(0), "S_OK");
    assert_eq!(host_error(0x8889_000A), "AUDCLNT_E_DEVICE_IN_USE");
    assert_eq!(host_error(0x0889_0003), "AUDCLNT_S_POSITION_STALLED");
    assert_eq!(host_error(0x1234), "Unknown error");
}

#[test]
fn wasapi_period_alignment() {
    assert_eq!(period_alignment_bytes(6, Some(128)), 384);
    assert_eq!(period_alignment_bytes(8, Some(128)), 128);
    assert_eq!(period_alignment_bytes(6, Some(0)), 6);
    assert_eq!(period_alignment_bytes(6, None), 6);
    assert_eq!(period_alignment_bytes(0, Some(128)), 0);
    assert_eq!(period_alignment_bytes(65536, Some(65536 * 2)), 131072);
    assert_eq!(aligned_period_frames(441, 100, 64), 384);
    assert_eq!(aligned_period_frames(441, 400, 64), 448);
    assert_eq!(aligned_period_frames(30, 0, 64), 0);
    assert_eq!(aligned_period_frames(-100, 0, 64), 0);
    assert_eq!(aligned_period_frames(-100, -50, 64), 0);
    assert_eq!(aligned_period_frames(-100, -70, 64), -64);
}

#[test]
fn wasapi_periods() {
    assert_eq!(calculate_period_100ns(480, 48000), 100_000);
    assert_eq!(calculate_period_100ns(441, 44100), 100_000);
    assert_eq!(calculate_period_100ns(1, 3), 3_333_333);
    assert_eq!(calculate_period_100ns(2, 3), 6_666_667);
    assert_eq!(calculate_period_100ns(0, 0), 0);
    assert_eq!(calculate_period_100ns(5, 0), i64::MAX);
    assert_eq!(calculate_period_100ns(-5, 0), i64::MIN);
    assert_eq!(calculate_period_100ns(-1, 3), -3_333_332);
    assert_eq!(calculate_period_100ns(i64::MAX, 1), i64::MAX);
}

#[test]
fn wasapi_buffers() {
    assert_eq!(available_buffer_frames(true, 1000, 300), 700);
    assert_eq!(available_buffer_frames(false, 1000, 300), 1000);
    assert_eq!(render_bytes(10, 6, 60), Ok(60));
    assert_eq!(render_bytes(10, 6, 59), Err(60));
    assert_eq!(device_state_label(1), None);
    assert_eq!(device_state_label(2), Some("DISABLED"));
    assert_eq!(device_state_label(4), Some("NOTPRESENT"));
    assert_eq!(device_state_label(8), Some("UNPLUGGED"));
    assert_eq!(device_state_label(3), Some("UNKNOWN"));
}

#[test]
fn wasapi_output_steps() {
    assert_eq!(output_step(480, 1000, false), OutputStep::Write(480));
    assert_eq!(output_step(480, 100, true), OutputStep::Drain(480));
    assert_eq!(output_step(0, 100, true), OutputStep::Drain(100));
    assert_eq!(output_step(0, 0, true), OutputStep::Finish);
    assert_eq!(output_step(0, 100, false), OutputStep::Sleep);
    assert_eq!(output_step(480, 100, false), OutputStep::WaitForData);
    let mut s = ClientStart::new();
    assert!(s.after_write());
    assert!(!s.after_write());
}
