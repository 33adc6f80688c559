use vstd::prelude::*;
use num_integer::Integer;
use crate::audio::{BitsPerSample, SampleRate, StreamParams};

verus! {

/// How a WASAPI stream shares its endpoint.
#[derive(Clone, Copy, Debug, PartialEq, Eq, Structural)]
pub enum ShareMode {
    Exclusive,
    Shared,
}

/// Exclusive streams own the endpoint; the others share it.
pub fn share_mode(exclusive: bool) -> (m: ShareMode)
    ensures
        m == if exclusive { ShareMode::Exclusive } else { ShareMode::Shared },
{
    if exclusive { ShareMode::Exclusive } else { ShareMode::Shared }
}

/// The sample encoding of a wave format.
#[derive(Clone, Copy, Debug, PartialEq, Eq, Structural)]
pub enum SubFormat {
    /// Integer PCM.
    Pcm,
    /// IEEE floating point.
    IeeeFloat,
}

/// `WAVE_FORMAT_EXTENSIBLE`, the format tag of an extensible wave format.
pub const WAVE_FORMAT_EXTENSIBLE: u16 = 0xFFFE;

/// Size of the extension of an extensible wave format, in bytes.
pub const EXTENSIBLE_EXTRA_BYTES: u16 = 22;

/// The fields of an extensible wave format descriptor
/// (`WAVEFORMATEXTENSIBLE`).
#[derive(Clone, Copy, Debug, PartialEq, Eq, Structural)]
pub struct WaveFormat {
    pub format_tag: u16,
    pub channels: u16,
    pub samples_per_sec: u32,
    pub avg_bytes_per_sec: u32,
    pub block_align: u16,
    pub bits_per_sample: u16,
    pub cb_size: u16,
    pub valid_bits_per_sample: u16,
    pub channel_mask: u32,
    pub sub_format: SubFormat,
}

/// One bit per channel for up to 18 channels (the speaker positions the
/// format defines); no mask beyond.
pub open spec fn channel_mask_spec(channels: nat) -> nat {
    if channels <= 18 { (vstd::arithmetic::power2::pow2(channels) - 1) as nat } else { 0 }
}

fn channel_mask(channels: usize) -> (m: u32)
    ensures
        m as nat == channel_mask_spec(channels as nat),
{
    if channels > 18 {
        return 0;
    }
    let mut m: u32 = 0;
    let mut i: usize = 0;
    proof {
        vstd::arithmetic::power2::lemma2_to64();
    }
    while i < channels
        invariant
            i <= channels <= 18,
            m as nat == vstd::arithmetic::power2::pow2(i as nat) - 1,
        decreases channels - i,
    {
        proof {
            vstd::arithmetic::power2::lemma_pow2_unfold((i + 1) as nat);
            vstd::arithmetic::power2::lemma_pow2_strictly_increases(i as nat, 18);
            vstd::arithmetic::power2::lemma2_to64();
        }
        m = m * 2 + 1;
        i = i + 1;
    }
    m
}

impl WaveFormat {
    /// The descriptor of interleaved audio with `channels` channels of
    /// `bits_per_sample` bits at `samplerate`: a block is one frame, the
    /// byte rate is the rate times the block, 32-bit samples are floats and
    /// narrower ones integers. The counts are stored in the descriptor's
    /// field widths (truncated to them).
    pub fn new(bits_per_sample: BitsPerSample, samplerate: SampleRate, channels: usize) -> (f: Self)
        requires
            channels * bits_per_sample.0 <= usize::MAX,
            samplerate.0 * (channels * bits_per_sample.0 / 8) <= usize::MAX,
        ensures
            f.block_align == (channels * bits_per_sample.0 / 8) as u16,
            f.avg_bytes_per_sec == (samplerate.0 * (channels * bits_per_sample.0 / 8)) as u32,
            f.channels == channels as u16,
            f.samples_per_sec == samplerate.0,
            f.bits_per_sample == bits_per_sample.0,
            f.valid_bits_per_sample == bits_per_sample.0,
            f.format_tag == WAVE_FORMAT_EXTENSIBLE,
            f.cb_size == EXTENSIBLE_EXTRA_BYTES,
            f.sub_format == if bits_per_sample.0 == 32 { SubFormat::IeeeFloat } else { SubFormat::Pcm },
            f.channel_mask as nat == channel_mask_spec(channels as nat),
    {
        let blockalign: usize = channels * (bits_per_sample.0 as usize) / 8;
        let byterate: usize = (samplerate.0 as usize) * blockalign;
        WaveFormat {
            format_tag: WAVE_FORMAT_EXTENSIBLE,
            channels: channels as u16,
            samples_per_sec: samplerate.0,
            avg_bytes_per_sec: byterate as u32,
            block_align: blockalign as u16,
            bits_per_sample: bits_per_sample.0,
            cb_size: EXTENSIBLE_EXTRA_BYTES,
            valid_bits_per_sample: bits_per_sample.0,
            channel_mask: channel_mask(channels),
            sub_format: if bits_per_sample.0 == 32 { SubFormat::IeeeFloat } else { SubFormat::Pcm },
        }
    }

    /// The descriptor for a stream's parameters.
    pub fn from_params(params: &StreamParams) -> (f: Self)
        requires
            params.samplerate.0 * (params.channels * params.bits_per_sample.0 / 8) <= usize::MAX,
        ensures
            f == WaveFormat::spec_new(params.bits_per_sample, params.samplerate, params.channels as usize),
    {
        proof {
            assert(params.channels as usize * params.bits_per_sample.0 <= 255 * 65535) by (nonlinear_arith)
                requires params.channels <= 255, params.bits_per_sample.0 <= 65535;
        }
        WaveFormat::new(params.bits_per_sample, params.samplerate, params.channels as usize)
    }

    /// What `new` gives, as a value.
    pub open spec fn spec_new(bits_per_sample: BitsPerSample, samplerate: SampleRate, channels: usize) -> WaveFormat {
        WaveFormat {
            format_tag: WAVE_FORMAT_EXTENSIBLE,
            channels: channels as u16,
            samples_per_sec: samplerate.0,
            avg_bytes_per_sec: (samplerate.0 * (channels * bits_per_sample.0 / 8)) as u32,
            block_align: (channels * bits_per_sample.0 / 8) as u16,
            bits_per_sample: bits_per_sample.0,
            cb_size: EXTENSIBLE_EXTRA_BYTES,
            valid_bits_per_sample: bits_per_sample.0,
            channel_mask: channel_mask_spec(channels as nat) as u32,
            sub_format: if bits_per_sample.0 == 32 { SubFormat::IeeeFloat } else { SubFormat::Pcm },
        }
    }
}


// ---------------------------------------------------------------------------
// Initialising a client.

/// `AUDCLNT_STREAMFLAGS_EVENTCALLBACK`: the engine signals an event when the
/// buffer is ready for more data.
pub const STREAMFLAGS_EVENTCALLBACK: u32 = 0x0004_0000;

/// What `IAudioClient::Initialize` is called with besides the format.
#[derive(Clone, Copy, Debug, PartialEq, Eq, Structural)]
pub struct InitRequest {
    pub share_mode: ShareMode,
    /// Whether the client is given an event to signal (event mode).
    pub needs_event_handle: bool,
    pub stream_flags: u32,
    pub buffer_duration: i64,
    pub periodicity: i64,
}

/// The buffer lasts one period; exclusive streams also fix the device period
/// to it (shared ones must pass zero); the event callback is used unless
/// the stream polls, and then an event handle is set once the client is
/// initialised.
pub fn init_request(share_mode: ShareMode, pollmode: bool, period_100ns: i64) -> (r: InitRequest)
    ensures
        r.share_mode == share_mode,
        r.buffer_duration == period_100ns,
        r.periodicity == if share_mode == ShareMode::Exclusive { period_100ns } else { 0 },
        r.stream_flags == if pollmode { 0 } else { STREAMFLAGS_EVENTCALLBACK },
        r.needs_event_handle == !pollmode,
{
    InitRequest {
        share_mode,
        needs_event_handle: !pollmode,
        stream_flags: if pollmode { 0 } else { STREAMFLAGS_EVENTCALLBACK },
        buffer_duration: period_100ns,
        periodicity: match share_mode {
            ShareMode::Exclusive => period_100ns,
            ShareMode::Shared => 0,
        },
    }
}

pub const E_POINTER: u32 = 0x8000_4003;
pub const E_INVALIDARG: u32 = 0x8007_0057;
pub const AUDCLNT_E_NOT_INITIALIZED: u32 = 0x8889_0001;
pub const AUDCLNT_E_ALREADY_INITIALIZED: u32 = 0x8889_0002;
pub const AUDCLNT_E_WRONG_ENDPOINT_TYPE: u32 = 0x8889_0003;
pub const AUDCLNT_E_DEVICE_INVALIDATED: u32 = 0x8889_0004;
pub const AUDCLNT_E_NOT_STOPPED: u32 = 0x8889_0005;
pub const AUDCLNT_E_BUFFER_TOO_LARGE: u32 = 0x8889_0006;
pub const AUDCLNT_E_OUT_OF_ORDER: u32 = 0x8889_0007;
pub const AUDCLNT_E_UNSUPPORTED_FORMAT: u32 = 0x8889_0008;
pub const AUDCLNT_E_INVALID_SIZE: u32 = 0x8889_0009;
pub const AUDCLNT_E_DEVICE_IN_USE: u32 = 0x8889_000A;
pub const AUDCLNT_E_BUFFER_OPERATION_PENDING: u32 = 0x8889_000B;
pub const AUDCLNT_E_THREAD_NOT_REGISTERED: u32 = 0x8889_000C;
pub const AUDCLNT_E_EXCLUSIVE_MODE_NOT_ALLOWED: u32 = 0x8889_000E;
pub const AUDCLNT_E_ENDPOINT_CREATE_FAILED: u32 = 0x8889_000F;
pub const AUDCLNT_E_SERVICE_NOT_RUNNING: u32 = 0x8889_0010;
pub const AUDCLNT_E_EVENTHANDLE_NOT_EXPECTED: u32 = 0x8889_0011;
pub const AUDCLNT_E_EXCLUSIVE_MODE_ONLY: u32 = 0x8889_0012;
pub const AUDCLNT_E_BUFDURATION_PERIOD_NOT_EQUAL: u32 = 0x8889_0013;
pub const AUDCLNT_E_EVENTHANDLE_NOT_SET: u32 = 0x8889_0014;
pub const AUDCLNT_E_INCORRECT_BUFFER_SIZE: u32 = 0x8889_0015;
pub const AUDCLNT_E_BUFFER_SIZE_ERROR: u32 = 0x8889_0016;
pub const AUDCLNT_E_CPUUSAGE_EXCEEDED: u32 = 0x8889_0017;
pub const AUDCLNT_E_BUFFER_ERROR: u32 = 0x8889_0018;
pub const AUDCLNT_E_BUFFER_SIZE_NOT_ALIGNED: u32 = 0x8889_0019;
pub const AUDCLNT_E_INVALID_DEVICE_PERIOD: u32 = 0x8889_0020;
pub const AUDCLNT_E_INVALID_STREAM_FLAG: u32 = 0x8889_0021;
pub const AUDCLNT_E_ENDPOINT_OFFLOAD_NOT_CAPABLE: u32 = 0x8889_0022;
pub const AUDCLNT_E_OUT_OF_OFFLOAD_RESOURCES: u32 = 0x8889_0023;
pub const AUDCLNT_E_OFFLOAD_MODE_ONLY: u32 = 0x8889_0024;
pub const AUDCLNT_E_NONOFFLOAD_MODE_ONLY: u32 = 0x8889_0025;
pub const AUDCLNT_E_RESOURCES_INVALIDATED: u32 = 0x8889_0026;
pub const AUDCLNT_E_RAW_MODE_UNSUPPORTED: u32 = 0x8889_0027;
pub const AUDCLNT_E_ENGINE_PERIODICITY_LOCKED: u32 = 0x8889_0028;
pub const AUDCLNT_E_ENGINE_FORMAT_LOCKED: u32 = 0x8889_0029;
pub const AUDCLNT_S_BUFFER_EMPTY: u32 = 0x0889_0001;
pub const AUDCLNT_S_THREAD_ALREADY_REGISTERED: u32 = 0x0889_0002;
pub const AUDCLNT_S_POSITION_STALLED: u32 = 0x0889_0003;

/// Why initialising a client failed, as the retry loop sees it.
#[derive(Clone, Copy, Debug, PartialEq, Eq, Structural)]
pub enum InitFailure {
    /// The buffer size is not aligned: recreate the client and retry with
    /// the period of the size the engine reports.
    BufferNotAligned,
    /// Another stream holds the endpoint or it is still being released:
    /// retry after a pause.
    Busy,
    InvalidArgument,
    UnsupportedFormat,
    ExclusiveModeNotAllowed,
    /// Any other code: permanent.
    Other,
}

/// Classifies the code `IAudioClient::Initialize` failed with.
pub fn classify_init_error(code: u32) -> (f: InitFailure)
    ensures
        f == if code == AUDCLNT_E_BUFFER_SIZE_NOT_ALIGNED {
            InitFailure::BufferNotAligned
        } else if code == AUDCLNT_E_DEVICE_IN_USE || code == AUDCLNT_E_ENDPOINT_CREATE_FAILED {
            InitFailure::Busy
        } else if code == E_INVALIDARG {
            InitFailure::InvalidArgument
        } else if code == AUDCLNT_E_UNSUPPORTED_FORMAT {
            InitFailure::UnsupportedFormat
        } else if code == AUDCLNT_E_EXCLUSIVE_MODE_NOT_ALLOWED {
            InitFailure::ExclusiveModeNotAllowed
        } else {
            InitFailure::Other
        },
{
    if code == AUDCLNT_E_BUFFER_SIZE_NOT_ALIGNED {
        InitFailure::BufferNotAligned
    } else if code == AUDCLNT_E_DEVICE_IN_USE || code == AUDCLNT_E_ENDPOINT_CREATE_FAILED {
        InitFailure::Busy
    } else if code == E_INVALIDARG {
        InitFailure::InvalidArgument
    } else if code == AUDCLNT_E_UNSUPPORTED_FORMAT {
        InitFailure::UnsupportedFormat
    } else if code == AUDCLNT_E_EXCLUSIVE_MODE_NOT_ALLOWED {
        InitFailure::ExclusiveModeNotAllowed
    } else {
        InitFailure::Other
    }
}

/// The message of a permanent failure with a fixed text.
pub open spec fn init_failure_text(f: InitFailure) -> Option<Seq<char>> {
    match f {
        InitFailure::InvalidArgument => Some("wasapi: initialize: invalid argument"@),
        InitFailure::UnsupportedFormat => Some("wasapi: initialize: device does not support the audio format"@),
        InitFailure::ExclusiveModeNotAllowed => Some("wasapi: initialize: exclusive mode not allowed"@),
        _ => None,
    }
}

/// The fixed message of a permanent failure; the retried failures and the
/// other codes (whose message names the code) have none.
pub fn init_failure_message(f: InitFailure) -> (m: Option<&'static str>)
    ensures
        match init_failure_text(f) {
            Some(t) => m matches Some(s) && s@ == t,
            None => m is None,
        },
{
    proof {
        reveal_strlit("wasapi: initialize: invalid argument");
        reveal_strlit("wasapi: initialize: device does not support the audio format");
        reveal_strlit("wasapi: initialize: exclusive mode not allowed");
    }
    match f {
        InitFailure::InvalidArgument => Some("wasapi: initialize: invalid argument"),
        InitFailure::UnsupportedFormat => Some("wasapi: initialize: device does not support the audio format"),
        InitFailure::ExclusiveModeNotAllowed => Some("wasapi: initialize: exclusive mode not allowed"),
        _ => None,
    }
}

/// What the retry loop does with a failed initialisation.
pub fn init_retry_kind(f: InitFailure) -> (k: crate::retry::RetryKind)
    ensures
        k == match f {
            InitFailure::BufferNotAligned => crate::retry::RetryKind::Immediate,
            InitFailure::Busy => crate::retry::RetryKind::Backoff,
            _ => crate::retry::RetryKind::Fatal,
        },
{
    match f {
        InitFailure::BufferNotAligned => crate::retry::RetryKind::Immediate,
        InitFailure::Busy => crate::retry::RetryKind::Backoff,
        _ => crate::retry::RetryKind::Fatal,
    }
}

/// The symbolic name of a WASAPI result code, `"Unknown error"` for codes
/// outside the table.
pub open spec fn host_error_name(code: u32) -> &'static str {
    if code == 0 { "S_OK" }
    else if code == E_POINTER { "E_POINTER" }
    else if code == E_INVALIDARG { "E_INVALIDARG" }
    else if code == AUDCLNT_E_NOT_INITIALIZED { "AUDCLNT_E_NOT_INITIALIZED" }
    else if code == AUDCLNT_E_ALREADY_INITIALIZED { "AUDCLNT_E_ALREADY_INITIALIZED" }
    else if code == AUDCLNT_E_WRONG_ENDPOINT_TYPE { "AUDCLNT_E_WRONG_ENDPOINT_TYPE" }
    else if code == AUDCLNT_E_DEVICE_INVALIDATED { "AUDCLNT_E_DEVICE_INVALIDATED" }
    else if code == AUDCLNT_E_NOT_STOPPED { "AUDCLNT_E_NOT_STOPPED" }
    else if code == AUDCLNT_E_BUFFER_TOO_LARGE { "AUDCLNT_E_BUFFER_TOO_LARGE" }
    else if code == AUDCLNT_E_OUT_OF_ORDER { "AUDCLNT_E_OUT_OF_ORDER" }
    else if code == AUDCLNT_E_UNSUPPORTED_FORMAT { "AUDCLNT_E_UNSUPPORTED_FORMAT" }
    else if code == AUDCLNT_E_INVALID_SIZE { "AUDCLNT_E_INVALID_SIZE" }
    else if code == AUDCLNT_E_DEVICE_IN_USE { "AUDCLNT_E_DEVICE_IN_USE" }
    else if code == AUDCLNT_E_BUFFER_OPERATION_PENDING { "AUDCLNT_E_BUFFER_OPERATION_PENDING" }
    else if code == AUDCLNT_E_THREAD_NOT_REGISTERED { "AUDCLNT_E_THREAD_NOT_REGISTERED" }
    else if code == AUDCLNT_E_EXCLUSIVE_MODE_NOT_ALLOWED { "AUDCLNT_E_EXCLUSIVE_MODE_NOT_ALLOWED" }
    else if code == AUDCLNT_E_ENDPOINT_CREATE_FAILED { "AUDCLNT_E_ENDPOINT_CREATE_FAILED" }
    else if code == AUDCLNT_E_SERVICE_NOT_RUNNING { "AUDCLNT_E_SERVICE_NOT_RUNNING" }
    else if code == AUDCLNT_E_EVENTHANDLE_NOT_EXPECTED { "AUDCLNT_E_EVENTHANDLE_NOT_EXPECTED" }
    else if code == AUDCLNT_E_EXCLUSIVE_MODE_ONLY { "AUDCLNT_E_EXCLUSIVE_MODE_ONLY" }
    else if code == AUDCLNT_E_BUFDURATION_PERIOD_NOT_EQUAL { "AUDCLNT_E_BUFDURATION_PERIOD_NOT_EQUAL" }
    else if code == AUDCLNT_E_EVENTHANDLE_NOT_SET { "AUDCLNT_E_EVENTHANDLE_NOT_SET" }
    else if code == AUDCLNT_E_INCORRECT_BUFFER_SIZE { "AUDCLNT_E_INCORRECT_BUFFER_SIZE" }
    else if code == AUDCLNT_E_BUFFER_SIZE_ERROR { "AUDCLNT_E_BUFFER_SIZE_ERROR" }
    else if code == AUDCLNT_E_CPUUSAGE_EXCEEDED { "AUDCLNT_E_CPUUSAGE_EXCEEDED" }
    else if code == AUDCLNT_E_BUFFER_ERROR { "AUDCLNT_E_BUFFER_ERROR" }
    else if code == AUDCLNT_E_BUFFER_SIZE_NOT_ALIGNED { "AUDCLNT_E_BUFFER_SIZE_NOT_ALIGNED" }
    else if code == AUDCLNT_E_INVALID_DEVICE_PERIOD { "AUDCLNT_E_INVALID_DEVICE_PERIOD" }
    else if code == AUDCLNT_E_INVALID_STREAM_FLAG { "AUDCLNT_E_INVALID_STREAM_FLAG" }
    else if code == AUDCLNT_E_ENDPOINT_OFFLOAD_NOT_CAPABLE { "AUDCLNT_E_ENDPOINT_OFFLOAD_NOT_CAPABLE" }
    else if code == AUDCLNT_E_OUT_OF_OFFLOAD_RESOURCES { "AUDCLNT_E_OUT_OF_OFFLOAD_RESOURCES" }
    else if code == AUDCLNT_E_OFFLOAD_MODE_ONLY { "AUDCLNT_E_OFFLOAD_MODE_ONLY" }
    else if code == AUDCLNT_E_NONOFFLOAD_MODE_ONLY { "AUDCLNT_E_NONOFFLOAD_MODE_ONLY" }
    else if code == AUDCLNT_E_RESOURCES_INVALIDATED { "AUDCLNT_E_RESOURCES_INVALIDATED" }
    else if code == AUDCLNT_E_RAW_MODE_UNSUPPORTED { "AUDCLNT_E_RAW_MODE_UNSUPPORTED" }
    else if code == AUDCLNT_E_ENGINE_PERIODICITY_LOCKED { "AUDCLNT_E_ENGINE_PERIODICITY_LOCKED" }
    else if code == AUDCLNT_E_ENGINE_FORMAT_LOCKED { "AUDCLNT_E_ENGINE_FORMAT_LOCKED" }
    else if code == AUDCLNT_S_BUFFER_EMPTY { "AUDCLNT_S_BUFFER_EMPTY" }
    else if code == AUDCLNT_S_THREAD_ALREADY_REGISTERED { "AUDCLNT_S_THREAD_ALREADY_REGISTERED" }
    else if code == AUDCLNT_S_POSITION_STALLED { "AUDCLNT_S_POSITION_STALLED" }
    else { "Unknown error" }
}

/// The symbolic name of a WASAPI result code (see `host_error_name`).
pub fn host_error(code: u32) -> (s: &'static str)
    ensures
        s == host_error_name(code),
{
    if code == 0 { "S_OK" }
    else if code == E_POINTER { "E_POINTER" }
    else if code == E_INVALIDARG { "E_INVALIDARG" }
    else if code == AUDCLNT_E_NOT_INITIALIZED { "AUDCLNT_E_NOT_INITIALIZED" }
    else if code == AUDCLNT_E_ALREADY_INITIALIZED { "AUDCLNT_E_ALREADY_INITIALIZED" }
    else if code == AUDCLNT_E_WRONG_ENDPOINT_TYPE { "AUDCLNT_E_WRONG_ENDPOINT_TYPE" }
    else if code == AUDCLNT_E_DEVICE_INVALIDATED { "AUDCLNT_E_DEVICE_INVALIDATED" }
    else if code == AUDCLNT_E_NOT_STOPPED { "AUDCLNT_E_NOT_STOPPED" }
    else if code == AUDCLNT_E_BUFFER_TOO_LARGE { "AUDCLNT_E_BUFFER_TOO_LARGE" }
    else if code == AUDCLNT_E_OUT_OF_ORDER { "AUDCLNT_E_OUT_OF_ORDER" }
    else if code == AUDCLNT_E_UNSUPPORTED_FORMAT { "AUDCLNT_E_UNSUPPORTED_FORMAT" }
    else if code == AUDCLNT_E_INVALID_SIZE { "AUDCLNT_E_INVALID_SIZE" }
    else if code == AUDCLNT_E_DEVICE_IN_USE { "AUDCLNT_E_DEVICE_IN_USE" }
    else if code == AUDCLNT_E_BUFFER_OPERATION_PENDING { "AUDCLNT_E_BUFFER_OPERATION_PENDING" }
    else if code == AUDCLNT_E_THREAD_NOT_REGISTERED { "AUDCLNT_E_THREAD_NOT_REGISTERED" }
    else if code == AUDCLNT_E_EXCLUSIVE_MODE_NOT_ALLOWED { "AUDCLNT_E_EXCLUSIVE_MODE_NOT_ALLOWED" }
    else if code == AUDCLNT_E_ENDPOINT_CREATE_FAILED { "AUDCLNT_E_ENDPOINT_CREATE_FAILED" }
    else if code == AUDCLNT_E_SERVICE_NOT_RUNNING { "AUDCLNT_E_SERVICE_NOT_RUNNING" }
    else if code == AUDCLNT_E_EVENTHANDLE_NOT_EXPECTED { "AUDCLNT_E_EVENTHANDLE_NOT_EXPECTED" }
    else if code == AUDCLNT_E_EXCLUSIVE_MODE_ONLY { "AUDCLNT_E_EXCLUSIVE_MODE_ONLY" }
    else if code == AUDCLNT_E_BUFDURATION_PERIOD_NOT_EQUAL { "AUDCLNT_E_BUFDURATION_PERIOD_NOT_EQUAL" }
    else if code == AUDCLNT_E_EVENTHANDLE_NOT_SET { "AUDCLNT_E_EVENTHANDLE_NOT_SET" }
    else if code == AUDCLNT_E_INCORRECT_BUFFER_SIZE { "AUDCLNT_E_INCORRECT_BUFFER_SIZE" }
    else if code == AUDCLNT_E_BUFFER_SIZE_ERROR { "AUDCLNT_E_BUFFER_SIZE_ERROR" }
    else if code == AUDCLNT_E_CPUUSAGE_EXCEEDED { "AUDCLNT_E_CPUUSAGE_EXCEEDED" }
    else if code == AUDCLNT_E_BUFFER_ERROR { "AUDCLNT_E_BUFFER_ERROR" }
    else if code == AUDCLNT_E_BUFFER_SIZE_NOT_ALIGNED { "AUDCLNT_E_BUFFER_SIZE_NOT_ALIGNED" }
    else if code == AUDCLNT_E_INVALID_DEVICE_PERIOD { "AUDCLNT_E_INVALID_DEVICE_PERIOD" }
    else if code == AUDCLNT_E_INVALID_STREAM_FLAG { "AUDCLNT_E_INVALID_STREAM_FLAG" }
    else if code == AUDCLNT_E_ENDPOINT_OFFLOAD_NOT_CAPABLE { "AUDCLNT_E_ENDPOINT_OFFLOAD_NOT_CAPABLE" }
    else if code == AUDCLNT_E_OUT_OF_OFFLOAD_RESOURCES { "AUDCLNT_E_OUT_OF_OFFLOAD_RESOURCES" }
    else if code == AUDCLNT_E_OFFLOAD_MODE_ONLY { "AUDCLNT_E_OFFLOAD_MODE_ONLY" }
    else if code == AUDCLNT_E_NONOFFLOAD_MODE_ONLY { "AUDCLNT_E_NONOFFLOAD_MODE_ONLY" }
    else if code == AUDCLNT_E_RESOURCES_INVALIDATED { "AUDCLNT_E_RESOURCES_INVALIDATED" }
    else if code == AUDCLNT_E_RAW_MODE_UNSUPPORTED { "AUDCLNT_E_RAW_MODE_UNSUPPORTED" }
    else if code == AUDCLNT_E_ENGINE_PERIODICITY_LOCKED { "AUDCLNT_E_ENGINE_PERIODICITY_LOCKED" }
    else if code == AUDCLNT_E_ENGINE_FORMAT_LOCKED { "AUDCLNT_E_ENGINE_FORMAT_LOCKED" }
    else if code == AUDCLNT_S_BUFFER_EMPTY { "AUDCLNT_S_BUFFER_EMPTY" }
    else if code == AUDCLNT_S_THREAD_ALREADY_REGISTERED { "AUDCLNT_S_THREAD_ALREADY_REGISTERED" }
    else if code == AUDCLNT_S_POSITION_STALLED { "AUDCLNT_S_POSITION_STALLED" }
    else { "Unknown error" }
}

// ---------------------------------------------------------------------------
// Period alignment.

/// Division rounding toward zero, for divisors of either sign.
pub open spec fn quot_toward_zero(a: int, b: int) -> int {
    let q = (if a < 0 { -a } else { a }) / (if b < 0 { -b } else { b });
    if (a < 0) != (b < 0) { -q } else { q }
}

/// `v` brought into the range of an `i64`.
pub open spec fn clamp_i64(v: int) -> int {
    if v > i64::MAX { i64::MAX as int } else if v < i64::MIN { i64::MIN as int } else { v }
}

/// The duration of `frames` frames at `samplerate` frames per second in
/// 100 ns units: `10^7 * frames / samplerate` plus one half, cut toward
/// zero and kept within an `i64` (so halves round away from zero for
/// positive periods). A rate of zero gives the largest or smallest period
/// by the sign of `frames`, and zero for no frames.
pub open spec fn period_100ns(frames: int, samplerate: int) -> int {
    if samplerate == 0 {
        if frames > 0 { i64::MAX as int } else if frames < 0 { i64::MIN as int } else { 0 }
    } else {
        clamp_i64(quot_toward_zero(20_000_000 * frames + samplerate, 2 * samplerate))
    }
}

pub fn calculate_period_100ns(frames: i64, samplerate: i64) -> (p: i64)
    ensures
        p == period_100ns(frames as int, samplerate as int),
{
    if samplerate == 0 {
        if frames > 0 { i64::MAX } else if frames < 0 { i64::MIN } else { 0 }
    } else {
        let n0: i128 = 20_000_000i128 * (frames as i128) + (samplerate as i128);
        let d0: i128 = 2i128 * (samplerate as i128);
        let (n, d): (i128, i128) = if d0 < 0 { (-n0, -d0) } else { (n0, d0) };
        assert(quot_toward_zero(n as int, d as int) == quot_toward_zero(n0 as int, d0 as int));
        let q: i128 = n / d;
        assert(q == trunc_div(n as int, d as int));
        assert(q == quot_toward_zero(n0 as int, d0 as int));
        if q > i64::MAX as i128 {
            i64::MAX
        } else if q < i64::MIN as i128 {
            i64::MIN
        } else {
            q as i64
        }
    }
}

/// Whether `m` is a positive common multiple of `a` and `b`.
pub open spec fn common_multiple(m: int, a: int, b: int) -> bool {
    m > 0 && m % a == 0 && m % b == 0
}

/// Whether `r` is the least common multiple of `a` and `b` (zero when
/// either is zero).
pub open spec fn is_lcm(r: int, a: int, b: int) -> bool {
    if a == 0 || b == 0 {
        r == 0
    } else {
        common_multiple(r, a, b) && forall|m: int| 0 < m < r ==> !common_multiple(m, a, b)
    }
}

/// Whether the least common multiple of `a` and `b` fits in a `u32`: some
/// common multiple does.
pub open spec fn lcm_fits(a: int, b: int) -> bool {
    a == 0 || b == 0 || exists|m: int| common_multiple(m, a, b) && m <= u32::MAX
}

/// `Integer::lcm` of num-integer on `u32`: the least common multiple, zero
/// when either argument is zero. The claim is the definition of the least
/// common multiple; the arguments are such that it fits (the crate
/// computes `a * (b / gcd)`, which is the result itself).
#[verifier::external_body]
fn lcm_u32(a: u32, b: u32) -> (r: u32)
    requires
        lcm_fits(a as int, b as int),
    ensures
        is_lcm(r as int, a as int, b as int),
{
    a.lcm(&b)
}

/// The size a period must be a multiple of, in bytes: a frame, or the
/// least common multiple of a frame and `align_bytes` when one is asked
/// for (zero asks for none).
pub fn period_alignment_bytes(frame_bytes: u32, align_bytes: Option<u32>) -> (r: u32)
    requires
        align_bytes matches Some(b) ==> lcm_fits(frame_bytes as int, b as int),
    ensures
        match align_bytes {
            Some(b) if b > 0 => is_lcm(r as int, frame_bytes as int, b as int),
            _ => r == frame_bytes,
        },
{
    match align_bytes {
        Some(b) => if b == 0 { frame_bytes } else { lcm_u32(frame_bytes, b) },
        None => frame_bytes,
    }
}

/// Division rounding toward zero, as Rust's `/` does.
pub open spec fn trunc_div(a: int, b: int) -> int {
    if a >= 0 { a / b } else { -((-a) / b) }
}

/// The number of alignment segments in the aligned period: the whole
/// segments in the desired period (rounding toward zero), one more if those
/// fall below the device's minimum.
pub open spec fn aligned_segments(desired_frames: int, min_frames: int, align_frames: int) -> int {
    let q = trunc_div(desired_frames, align_frames);
    q + if q * align_frames < min_frames { 1int } else { 0int }
}

/// The aligned period in frames: whole alignment segments (see
/// `aligned_segments`).
pub fn aligned_period_frames(desired_frames: i64, min_frames: i64, align_frames: i64) -> (r: i64)
    requires
        align_frames > 0,
        i64::MIN <= align_frames * aligned_segments(desired_frames as int, min_frames as int, align_frames as int) <= i64::MAX,
    ensures
        r == align_frames * aligned_segments(desired_frames as int, min_frames as int, align_frames as int),
{
    let q: i64 = desired_frames / align_frames;
    assert(q == trunc_div(desired_frames as int, align_frames as int));
    proof {
        assert(q * align_frames == align_frames * q) by (nonlinear_arith);
        if desired_frames >= 0 {
            assert(align_frames * q <= desired_frames && q >= 0) by (nonlinear_arith)
                requires q == desired_frames / align_frames, align_frames > 0, desired_frames >= 0;
        } else {
            assert(-(align_frames * q) <= -desired_frames && q <= 0) by (nonlinear_arith)
                requires q == -((-(desired_frames as int)) / (align_frames as int)), align_frames > 0, desired_frames < 0;
        }
    }
    if q * align_frames < min_frames {
        proof {
            assert(align_frames * (q + 1) <= i64::MAX);
            if q >= 0 {
                assert(q + 1 <= i64::MAX) by (nonlinear_arith)
                    requires align_frames * (q + 1) <= i64::MAX, align_frames >= 1, q >= 0;
            }
        }
        align_frames * (q + 1)
    } else {
        align_frames * q
    }
}

/// The aligned period is a whole number of segments, and reaches the
/// device's minimum whenever the desired period does (to within a frame).
pub proof fn lemma_aligned_period(desired_frames: int, min_frames: int, align_frames: int)
    requires
        align_frames > 0,
        0 <= desired_frames,
        min_frames <= desired_frames + 1,
    ensures
        (align_frames * aligned_segments(desired_frames, min_frames, align_frames)) % align_frames == 0,
        align_frames * aligned_segments(desired_frames, min_frames, align_frames) >= min_frames,
{
    let q = desired_frames / align_frames;
    let s = aligned_segments(desired_frames, min_frames, align_frames);
    vstd::arithmetic::div_mod::lemma_fundamental_div_mod(desired_frames, align_frames);
    vstd::arithmetic::div_mod::lemma_mod_pos_bound(desired_frames, align_frames);
    vstd::arithmetic::div_mod::lemma_mod_multiples_basic(s, align_frames);
    assert(align_frames * s == s * align_frames) by (nonlinear_arith);
    assert(q * align_frames == align_frames * q) by (nonlinear_arith);
    if q * align_frames < min_frames {
        assert(align_frames * s == align_frames * q + align_frames) by (nonlinear_arith)
            requires s == q + 1;
    }
}

// ---------------------------------------------------------------------------
// The output thread.

/// Frames the client can take: in poll mode the free part of the buffer,
/// otherwise (event mode) all of it.
pub fn available_buffer_frames(pollmode: bool, max_buffer_frames: usize, padding: usize) -> (r: usize)
    requires
        pollmode ==> padding <= max_buffer_frames,
    ensures
        r == if pollmode { (max_buffer_frames - padding) as usize } else { max_buffer_frames },
{
    if pollmode { max_buffer_frames - padding } else { max_buffer_frames }
}

/// The bytes to copy for a render request of `frames` frames, or the
/// expected size when `data_len` bytes are too few.
pub fn render_bytes(frames: usize, block_align: usize, data_len: usize) -> (r: Result<usize, usize>)
    requires
        frames * block_align <= usize::MAX,
    ensures
        r == if frames * block_align <= data_len {
            Ok::<usize, usize>((frames * block_align) as usize)
        } else {
            Err::<usize, usize>((frames * block_align) as usize)
        },
{
    let n = frames * block_align;
    if n > data_len { Err(n) } else { Ok(n) }
}

/// The label of an endpoint state that cannot play, or nothing for an
/// active endpoint (state 1).
pub fn device_state_label(state: u32) -> (l: Option<&'static str>)
    ensures
        state == 1 ==> l is None,
        state == 2 ==> l == Some("DISABLED"),
        state == 4 ==> l == Some("NOTPRESENT"),
        state == 8 ==> l == Some("UNPLUGGED"),
        state != 1 && state != 2 && state != 4 && state != 8 ==> l == Some("UNKNOWN"),
{
    match state {
        1 => None,
        2 => Some("DISABLED"),
        4 => Some("NOTPRESENT"),
        8 => Some("UNPLUGGED"),
        _ => Some("UNKNOWN"),
    }
}

/// What the output thread does with the buffer state it sees.
#[derive(Clone, Copy, Debug, PartialEq, Eq, Structural)]
pub enum OutputStep {
    /// Move this many bytes from the ring to the client.
    Write(usize),
    /// The stream ended: move what is left, padded with silence to this
    /// many bytes, then finish.
    Drain(usize),
    /// The stream ended and nothing is left: finish.
    Finish,
    /// The client is full: sleep briefly.
    Sleep,
    /// The ring is short of data: wait for the decoder.
    WaitForData,
}

/// One step of the output thread: write when the client has room and the
/// ring can fill it; at the end of the stream drain; otherwise wait for the
/// client or for data.
pub fn output_step(writable: usize, available: usize, end_of_stream: bool) -> (s: OutputStep)
    ensures
        s == if writable > 0 && available >= writable {
            OutputStep::Write(writable)
        } else if end_of_stream {
            if writable > 0 || available > 0 {
                OutputStep::Drain(if writable > available { writable } else { available })
            } else {
                OutputStep::Finish
            }
        } else if writable == 0 {
            OutputStep::Sleep
        } else {
            OutputStep::WaitForData
        },
{
    if writable > 0 && available >= writable {
        OutputStep::Write(writable)
    } else if end_of_stream {
        let chunk = if writable > available { writable } else { available };
        if chunk > 0 { OutputStep::Drain(chunk) } else { OutputStep::Finish }
    } else if writable == 0 {
        OutputStep::Sleep
    } else {
        OutputStep::WaitForData
    }
}

/// Whether the client has been started: it starts after the first write,
/// so that it never plays an empty buffer.
pub struct ClientStart {
    pub started: bool,
}

impl ClientStart {
    pub fn new() -> (c: Self)
        ensures
            !c.started,
    {
        ClientStart { started: false }
    }

    /// Records a write; returns whether the client must be started now
    /// (on the first write only).
    pub fn after_write(&mut self) -> (start_now: bool)
        ensures
            start_now == !old(self).started,
            final(self).started,
    {
        let start_now = !self.started;
        self.started = true;
        start_now
    }
}

} // verus!
