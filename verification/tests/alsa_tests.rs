use rhap::alsa::{
    alsa_error_message, bits_to_format, data_step, hw_preflight, device_entry, device_node_path, device_ring_bytes, finish_device_list, hw_device_name,
    open_retry_kind, parse_card_number, parse_hw_card_dev, parse_usb_stream_descriptors, pcm_layout,
    probe_capabilities, select_device_index, stream_file_path, target_period_us, ControlStep, DataStep, Device,
    DeviceSelectError, Host, OutputControl, PcmFormat, EAGAIN, EBUSY,
};
use rhap::audio::{BitsPerSample, SampleRate, StreamParams};
use rhap::retry::RetryKind;

const STREAM0: &str = "Focusrite Scarlett 2i2 at usb-0000:00:14.0-2, high speed : USB Audio

Playback:
  Status: Stop
  Interface 1
    Altset 1
    Format: S32_LE
    Channels: 2
    Endpoint: 0x01 (1 OUT) (ASYNC)
    Rates: 96000, 44100, 48000, 88200
    Bits: 24
    Channel map: FL FR
  Interface 1
    Altset 2
    Format: S16_LE
    Channels: 2
    Rates: 44100, 48000
    Bits: 16

Capture:
  Status: Stop
";

#[test]
fn card_numbers() {
    assert_eq!(parse_card_number("hw:5,0"), Some(5));
    assert_eq!(parse_card_number("hw:12"), Some(12));
    assert_eq!(parse_card_number("plughw:1,0"), None);
    assert_eq!(parse_card_number("hw:x,0"), None);
    assert_eq!(parse_hw_card_dev("hw:2,3"), Some((2, 3)));
    assert_eq!(parse_hw_card_dev("hw:2"), None);
    assert_eq!(parse_hw_card_dev("default"), None);
}

#[test]
fn usb_descriptors_give_sorted_distinct_formats() {
    let (rates, bits) = parse_usb_stream_descriptors(STREAM0).expect("formats");
    assert_eq!(rates, vec![SampleRate(44100), SampleRate(48000), SampleRate(88200), SampleRate(96000)]);
    assert_eq!(bits, vec![BitsPerSample(16), BitsPerSample(24)]);
}

#[test]
fn usb_descriptors_without_playback_give_nothing() {
    assert_eq!(parse_usb_stream_descriptors("Capture:\n  Rates: 48000\n  Bits: 16\n"), None);
    assert_eq!(parse_usb_stream_descriptors("Playback:\n  Rates: 48000\n"), None);
}

#[test]
fn probe_uses_the_descriptor_of_hw_devices_only() {
    assert!(probe_capabilities("hw:1,0", Some(STREAM0)).is_some());
    assert_eq!(probe_capabilities("hw:1,0", None), None);
    assert_eq!(probe_capabilities("default", Some(STREAM0)), None);
}

#[test]
fn names_and_paths() {
    assert_eq!(hw_device_name(3, 1), "hw:3,1");
    assert_eq!(stream_file_path(7), "/proc/asound/card7/stream0");
    assert_eq!(device_node_path(0, 2), "/dev/snd/pcmC0D2p");
}

#[test]
fn device_entries() {
    let e = device_entry(0, Some("USB DAC"), 0, Some("USB Audio"));
    assert_eq!(e.device_name, "hw:0,0");
    assert_eq!(e.friendly_name, "USB DAC [USB Audio]");
    assert!(e.is_default);
    let f = device_entry(2, None, 1, None);
    assert_eq!(f.friendly_name, "Card 2 [unknown]");
    assert!(!f.is_default);
}

#[test]
fn empty_device_list_gets_a_default_entry() {
    let list = finish_device_list(Vec::new());
    assert_eq!(list.len(), 1);
    assert_eq!(list[0].device_name, "hw:0,0");
    assert_eq!(list[0].friendly_name, "Default ALSA device");
    assert!(list[0].is_default);
    let kept = finish_device_list(vec![device_entry(1, Some("A"), 0, Some("B"))]);
    assert_eq!(kept.len(), 1);
    assert_eq!(kept[0].device_name, "hw:1,0");
}

#[test]
fn device_selection() {
    assert_eq!(select_device_index(3, Some(2)), Ok(2));
    assert_eq!(select_device_index(3, Some(3)), Err(DeviceSelectError::IndexNotFound(3)));
    assert_eq!(select_device_index(3, None), Ok(0));
    assert_eq!(select_device_index(0, None), Err(DeviceSelectError::NoDevices));
}

#[test]
fn formats_and_layout() {
    assert_eq!(bits_to_format(BitsPerSample(16)), Ok(PcmFormat::S16LE));
    assert_eq!(bits_to_format(BitsPerSample(24)), Ok(PcmFormat::S24_3LE));
    assert_eq!(bits_to_format(BitsPerSample(32)), Ok(PcmFormat::FloatLE));
    assert_eq!(bits_to_format(BitsPerSample(20)), Err(20));
    let l = pcm_layout(BitsPerSample(24), 2, 1024, 4096);
    assert_eq!(l.frame_bytes, 6);
    assert_eq!(l.period_bytes, 6144);
    assert_eq!(l.buffer_bytes, 24576);
    assert_eq!(target_period_us(10), 10_000);
    assert_eq!(target_period_us(u32::MAX), u32::MAX);
}

#[test]
fn busy_devices_are_retried() {
    assert_eq!(open_retry_kind(EBUSY), RetryKind::Backoff);
    assert_eq!(open_retry_kind(EAGAIN), RetryKind::Backoff);
    assert_eq!(open_retry_kind(2), RetryKind::Fatal);
}

#[test]
fn ring_holds_four_device_buffers() {
    let p = StreamParams { channels: 2, samplerate: SampleRate(44100), bits_per_sample: BitsPerSample(16), exclusive: true, pollmode: false };
    // 250 ms of 44.1 kHz stereo 16-bit is 44100 bytes; the floor is 64 KiB.
    assert_eq!(device_ring_bytes(&p, 1000), 65536);
    assert_eq!(device_ring_bytes(&p, 40000), 160000);
}

#[test]
fn hosts_and_devices() {
    let h = Host::new(true);
    let d = Device::from_entry(device_entry(1, Some("DAC"), 0, Some("PCM")), &h);
    assert!(d.high_priority_mode);
    assert!(!d.is_default());
    assert_eq!(d.name(), "DAC [PCM]");
    let caps = d.get_capabilities(Some((vec![SampleRate(48000)], vec![BitsPerSample(24)])));
    assert_eq!(caps.sample_rates, vec![SampleRate(48000)]);
    let all = d.get_capabilities(None);
    assert_eq!(all.sample_rates.len(), 13);
    assert_eq!(all.bits_per_samples, vec![BitsPerSample(16), BitsPerSample(24), BitsPerSample(32)]);
}

#[test]
fn output_control_follows_pause_requests() {
    let mut c = OutputControl::new();
    assert_eq!(c.step(true, false), ControlStep::Run);
    assert_eq!(c.step(true, true), ControlStep::PauseDevice);
    assert!(c.hw_paused);
    assert_eq!(c.step(true, true), ControlStep::StayPaused);
    assert_eq!(c.step(true, false), ControlStep::ResumeDevice);
    assert!(!c.hw_paused);
    assert_eq!(c.step(false, true), ControlStep::Exit);
    assert!(!c.hw_paused);
}

#[test]
fn data_steps() {
    assert_eq!(data_step(4096, 4096, 4096, false), DataStep::WritePeriod);
    assert_eq!(data_step(4096, 100, 4096, true), DataStep::Drain);
    assert_eq!(data_step(0, 100, 4096, false), DataStep::WaitDevice);
    assert_eq!(data_step(100, 100000, 4096, false), DataStep::WaitData);
}

#[test]
fn capture_section_is_not_playback() {
    let text = "Playback:\n  Rates: 48000\n  Bits: 16\n\nCapture:\n  Rates: 96000\n  Bits: 24\n";
    let (rates, bits) = parse_usb_stream_descriptors(text).expect("formats");
    assert_eq!(rates, vec![SampleRate(48000)]);
    assert_eq!(bits, vec![BitsPerSample(16)]);
    assert_eq!(parse_usb_stream_descriptors("Capture:\n  Rates: 96000\n  Bits: 24\nPlayback:\n  Status: Stop\n"), None);
}

#[test]
fn missing_hw_nodes_are_refused() {
    assert_eq!(hw_preflight("hw:2,1", false), Err("alsa: hw device hw:2,1 not present at /dev/snd/pcmC2D1p (check connection)".to_string()));
    assert_eq!(hw_preflight("hw:2,1", true), Ok(()));
    assert_eq!(hw_preflight("default", false), Ok(()));
    assert_eq!(alsa_error_message("set_rate", "Invalid argument"), "alsa: set_rate: Invalid argument");
}
