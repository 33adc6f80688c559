use vstd::prelude::*;
use vstd::arithmetic::div_mod::{lemma_fundamental_div_mod, lemma_fundamental_div_mod_converse, lemma_mod_pos_bound};

verus! {

// ---------------------------------------------------------------------------
// Little-endian sample values.

/// The signed value of the 16-bit little-endian sample `i` of `b`.
pub open spec fn s16_at(b: Seq<u8>, i: int) -> int {
    b[2 * i + 1] * 256 + b[2 * i] - if b[2 * i + 1] >= 128 { 65536int } else { 0int }
}

/// The signed value of the packed 24-bit little-endian sample `i` of `b`.
pub open spec fn s24_at(b: Seq<u8>, i: int) -> int {
    b[3 * i + 2] * 65536 + b[3 * i + 1] * 256 + b[3 * i] - if b[3 * i + 2] >= 128 { 16777216int } else { 0int }
}

/// The signed value of the 32-bit little-endian sample `i` of `b`.
pub open spec fn s32_at(b: Seq<u8>, i: int) -> int {
    b[4 * i + 3] * 16777216 + b[4 * i + 2] * 65536 + b[4 * i + 1] * 256 + b[4 * i]
        - if b[4 * i + 3] >= 128 { 4294967296int } else { 0int }
}

/// The first `n` 16-bit samples of `b`.
pub open spec fn s16_samples(b: Seq<u8>, n: nat) -> Seq<i16> {
    Seq::new(n, |k: int| s16_at(b, k) as i16)
}

/// The first `n` packed 24-bit samples of `b`, widened to 32 bits with
/// their sign.
pub open spec fn s24_samples(b: Seq<u8>, n: nat) -> Seq<i32> {
    Seq::new(n, |k: int| s24_at(b, k) as i32)
}

/// The first `n` 32-bit samples of `b`.
pub open spec fn s32_samples(b: Seq<u8>, n: nat) -> Seq<i32> {
    Seq::new(n, |k: int| s32_at(b, k) as i32)
}

/// The first `n` packed 24-bit samples of `b`, each shifted right by eight
/// bits (rounding down) to 16 bits.
pub open spec fn s24_as_s16(b: Seq<u8>, n: nat) -> Seq<i16> {
    Seq::new(n, |k: int| (s24_at(b, k) / 256) as i16)
}

/// The first `n` 32-bit samples of `b`, each shifted right by sixteen bits
/// (rounding down) to 16 bits.
pub open spec fn s32_as_s16(b: Seq<u8>, n: nat) -> Seq<i16> {
    Seq::new(n, |k: int| (s32_at(b, k) / 65536) as i16)
}

/// The first `n` 32-bit samples of `b` as packed 24-bit samples: the three
/// high bytes of each.
pub open spec fn s32_as_s24_bytes(b: Seq<u8>, n: nat) -> Seq<u8> {
    Seq::new(3 * n, |j: int| b[4 * (j / 3) + 1 + j % 3])
}

/// How many samples of `width` bytes the whole frames of `len` bytes hold,
/// with `channels` samples to a frame.
pub open spec fn frame_samples(len: nat, channels: nat, width: nat) -> nat {
    ((len / (width * channels)) * channels) as nat
}

proof fn lemma_frame_samples_fit(len: nat, channels: nat, width: nat)
    requires
        channels > 0,
        width > 0,
    ensures
        frame_samples(len, channels, width) * width <= len,
        len - frame_samples(len, channels, width) * width < width * channels,
{
    let f = (width * channels) as int;
    assert(f > 0) by (nonlinear_arith)
        requires width > 0, channels > 0, f == width * channels;
    let q = len as int / f;
    lemma_fundamental_div_mod(len as int, f);
    lemma_mod_pos_bound(len as int, f);
    assert(q >= 0) by (nonlinear_arith)
        requires q == len as int / f, len >= 0, f > 0;
    assert(q * channels * width == f * q) by (nonlinear_arith)
        requires f == width * channels;
}

fn samples_in_frames(len: usize, channels: u32, width: usize) -> (n: usize)
    requires
        channels > 0,
        1 <= width <= 4,
        channels as int * 4 <= usize::MAX,
    ensures
        n == frame_samples(len as nat, channels as nat, width as nat),
        n * width <= len,
{
    proof {
        lemma_frame_samples_fit(len as nat, channels as nat, width as nat);
        assert(width * channels <= 4 * channels) by (nonlinear_arith)
            requires width <= 4;
    }
    let frame_bytes = width * (channels as usize);
    let frames = len / frame_bytes;
    proof {
        assert(frames * channels <= len) by (nonlinear_arith)
            requires frames * channels * width <= len, width >= 1, frames >= 0, channels >= 0;
    }
    frames * (channels as usize)
}

// ---------------------------------------------------------------------------
// One sample.

fn s16_sample(data: &[u8], i: usize) -> (r: i16)
    requires
        2 * i + 1 < data.len(),
    ensures
        r as int == s16_at(data@, i as int),
{
    let lo: i32 = data[2 * i] as i32;
    let hi: i32 = data[2 * i + 1] as i32;
    let v: i32 = if hi >= 128 { hi * 256 + lo - 65536 } else { hi * 256 + lo };
    v as i16
}

fn s24_sample(data: &[u8], i: usize) -> (r: i32)
    requires
        3 * i + 2 < data.len(),
    ensures
        r as int == s24_at(data@, i as int),
{
    let b0: i32 = data[3 * i] as i32;
    let b1: i32 = data[3 * i + 1] as i32;
    let b2: i32 = data[3 * i + 2] as i32;
    if b2 >= 128 {
        b2 * 65536 + b1 * 256 + b0 - 16777216
    } else {
        b2 * 65536 + b1 * 256 + b0
    }
}

fn s32_sample(data: &[u8], i: usize) -> (r: i32)
    requires
        4 * i + 3 < data.len(),
    ensures
        r as int == s32_at(data@, i as int),
{
    let b0: i64 = data[4 * i] as i64;
    let b1: i64 = data[4 * i + 1] as i64;
    let b2: i64 = data[4 * i + 2] as i64;
    let b3: i64 = data[4 * i + 3] as i64;
    let v: i64 = if b3 >= 128 {
        b3 * 16777216 + b2 * 65536 + b1 * 256 + b0 - 4294967296
    } else {
        b3 * 16777216 + b2 * 65536 + b1 * 256 + b0
    };
    v as i32
}

fn s24_sample_to_s16(data: &[u8], i: usize) -> (r: i16)
    requires
        3 * i + 2 < data.len(),
    ensures
        r as int == s24_at(data@, i as int) / 256,
{
    let b0: i32 = data[3 * i] as i32;
    let b1: i32 = data[3 * i + 1] as i32;
    let b2: i32 = data[3 * i + 2] as i32;
    let v: i32 = if b2 >= 128 { b2 * 256 + b1 - 65536 } else { b2 * 256 + b1 };
    proof {
        lemma_fundamental_div_mod_converse(s24_at(data@, i as int), 256, v as int, b0 as int);
    }
    v as i16
}

fn s32_sample_to_s16(data: &[u8], i: usize) -> (r: i16)
    requires
        4 * i + 3 < data.len(),
    ensures
        r as int == s32_at(data@, i as int) / 65536,
{
    let b0: i32 = data[4 * i] as i32;
    let b1: i32 = data[4 * i + 1] as i32;
    let b2: i32 = data[4 * i + 2] as i32;
    let b3: i32 = data[4 * i + 3] as i32;
    let v: i32 = if b3 >= 128 { b3 * 256 + b2 - 65536 } else { b3 * 256 + b2 };
    proof {
        lemma_fundamental_div_mod_converse(s32_at(data@, i as int), 65536, v as int, b1 * 256 + b0);
    }
    v as i16
}

// ---------------------------------------------------------------------------
// Whole buffers.

/// The 16-bit samples of `data` (a trailing odd byte is ignored).
pub fn decode_s16le(data: &[u8]) -> (out: Vec<i16>)
    ensures
        out@ == s16_samples(data@, data@.len() / 2),
{
    let n = data.len() / 2;
    let mut out: Vec<i16> = Vec::new();
    let mut i: usize = 0;
    while i < n
        invariant
            n == data@.len() / 2,
            i <= n,
            out@ =~= s16_samples(data@, i as nat),
        decreases n - i,
    {
        out.push(s16_sample(data, i));
        i = i + 1;
    }
    out
}

/// The packed 24-bit samples of `data`, sign-extended to 32 bits (a
/// trailing partial sample is ignored).
pub fn decode_s24le(data: &[u8]) -> (out: Vec<i32>)
    ensures
        out@ == s24_samples(data@, data@.len() / 3),
{
    let n = data.len() / 3;
    let mut out: Vec<i32> = Vec::new();
    let mut i: usize = 0;
    while i < n
        invariant
            n == data@.len() / 3,
            i <= n,
            out@ =~= s24_samples(data@, i as nat),
        decreases n - i,
    {
        out.push(s24_sample(data, i));
        i = i + 1;
    }
    out
}

/// The 32-bit samples of `data` (a trailing partial sample is ignored).
pub fn decode_s32le(data: &[u8]) -> (out: Vec<i32>)
    ensures
        out@ == s32_samples(data@, data@.len() / 4),
{
    let n = data.len() / 4;
    let mut out: Vec<i32> = Vec::new();
    let mut i: usize = 0;
    while i < n
        invariant
            n == data@.len() / 4,
            i <= n,
            out@ =~= s32_samples(data@, i as nat),
        decreases n - i,
    {
        out.push(s32_sample(data, i));
        i = i + 1;
    }
    out
}

/// Converts the whole frames of packed 24-bit audio with `channels`
/// channels to 16-bit samples, dropping the low byte of each.
pub fn convert_24bit_to_16bit(data: &[u8], channels: u32) -> (out: Vec<i16>)
    requires
        channels > 0,
        channels as int * 4 <= usize::MAX,
    ensures
        out@ == s24_as_s16(data@, frame_samples(data@.len(), channels as nat, 3)),
{
    let n = samples_in_frames(data.len(), channels, 3);
    let mut out: Vec<i16> = Vec::new();
    let mut i: usize = 0;
    while i < n
        invariant
            n * 3 <= data@.len(),
            i <= n,
            out@ =~= s24_as_s16(data@, i as nat),
        decreases n - i,
    {
        out.push(s24_sample_to_s16(data, i));
        i = i + 1;
    }
    out
}

/// Converts the whole frames of 32-bit audio with `channels` channels to
/// 16-bit samples, keeping the high half of each.
pub fn convert_32bit_to_16bit(data: &[u8], channels: u32) -> (out: Vec<i16>)
    requires
        channels > 0,
        channels as int * 4 <= usize::MAX,
    ensures
        out@ == s32_as_s16(data@, frame_samples(data@.len(), channels as nat, 4)),
{
    let n = samples_in_frames(data.len(), channels, 4);
    let mut out: Vec<i16> = Vec::new();
    let mut i: usize = 0;
    while i < n
        invariant
            n * 4 <= data@.len(),
            i <= n,
            out@ =~= s32_as_s16(data@, i as nat),
        decreases n - i,
    {
        out.push(s32_sample_to_s16(data, i));
        i = i + 1;
    }
    out
}

/// Converts the whole frames of 32-bit audio with `channels` channels to
/// packed 24-bit samples, keeping the three high bytes of each.
pub fn convert_32bit_to_24bit(data: &[u8], channels: u32) -> (out: Vec<u8>)
    requires
        channels > 0,
        channels as int * 4 <= usize::MAX,
    ensures
        out@ == s32_as_s24_bytes(data@, frame_samples(data@.len(), channels as nat, 4)),
{
    let n = samples_in_frames(data.len(), channels, 4);
    let mut out: Vec<u8> = Vec::new();
    let mut i: usize = 0;
    while i < n
        invariant
            n * 4 <= data.len(),
            i <= n,
            out@ =~= s32_as_s24_bytes(data@, i as nat),
        decreases n - i,
    {
        let ghost before = out@;
        out.push(data[4 * i + 1]);
        out.push(data[4 * i + 2]);
        out.push(data[4 * i + 3]);
        proof {
            assert forall|j: int| 0 <= j < 3 * (i + 1) implies #[trigger] out@[j] == data@[4 * (j / 3) + 1 + j % 3] by {
                if j >= 3 * i {
                    assert(j / 3 == i && j % 3 == j - 3 * i) by (nonlinear_arith)
                        requires 3 * i <= j < 3 * i + 3;
                }
            }
        }
        i = i + 1;
    }
    out
}

/// The three bytes kept of a 32-bit sample form the 24-bit sample whose
/// value is the 32-bit value shifted right by eight bits.
pub proof fn lemma_s32_to_s24_keeps_value(b: Seq<u8>, i: int)
    requires
        0 <= i,
        4 * i + 3 < b.len(),
    ensures
        s24_at(s32_as_s24_bytes(b, (i + 1) as nat), i) == s32_at(b, i) / 256,
{
    let c = s32_as_s24_bytes(b, (i + 1) as nat);
    assert(c[3 * i] == b[4 * i + 1] && c[3 * i + 1] == b[4 * i + 2] && c[3 * i + 2] == b[4 * i + 3]) by {
        assert((3 * i) / 3 == i && (3 * i) % 3 == 0) by (nonlinear_arith)
            requires i >= 0;
        assert((3 * i + 1) / 3 == i && (3 * i + 1) % 3 == 1) by (nonlinear_arith)
            requires i >= 0;
        assert((3 * i + 2) / 3 == i && (3 * i + 2) % 3 == 2) by (nonlinear_arith)
            requires i >= 0;
    }
    lemma_fundamental_div_mod_converse(s32_at(b, i), 256, s24_at(c, i), b[4 * i] as int);
}

// ---------------------------------------------------------------------------
// Streaming conversion.

/// Packed 24-bit audio arriving in pieces that need not end on a frame:
/// the bytes of a partial frame wait here for the next piece.
pub struct ConversionBuffer {
    pub pending: Vec<u8>,
    pub channels: u32,
}

/// The samples a buffered conversion returns for `pending` followed by
/// `data`: those of all whole frames.
pub open spec fn buffered_output(pending: Seq<u8>, data: Seq<u8>, channels: nat) -> Seq<i16> {
    let all = pending + data;
    s24_as_s16(all, frame_samples(all.len(), channels, 3))
}

/// The bytes a buffered conversion keeps for the next piece.
pub open spec fn buffered_rest(pending: Seq<u8>, data: Seq<u8>, channels: nat) -> Seq<u8> {
    let all = pending + data;
    all.skip(3 * frame_samples(all.len(), channels, 3) as int)
}

impl ConversionBuffer {
    pub open spec fn wf(&self) -> bool {
        self.channels > 0 && self.channels as int * 4 <= usize::MAX
    }

    pub fn new(channels: u32) -> (b: Self)
        ensures
            b.pending@ == Seq::<u8>::empty(),
            b.channels == channels,
    {
        ConversionBuffer { pending: Vec::new(), channels }
    }

    /// Appends `data` and converts every whole frame held to 16 bits; the
    /// bytes of a trailing partial frame stay for the next call.
    pub fn convert_buffered_24bit_to_16bit(&mut self, data: &[u8]) -> (out: Vec<i16>)
        requires
            old(self).wf(),
            old(self).pending@.len() + data@.len() <= usize::MAX,
        ensures
            final(self).channels == old(self).channels,
            out@ == buffered_output(old(self).pending@, data@, old(self).channels as nat),
            final(self).pending@ == buffered_rest(old(self).pending@, data@, old(self).channels as nat),
            final(self).pending@.len() < 3 * old(self).channels,
    {
        let ghost all = self.pending@ + data@;
        let mut i: usize = 0;
        while i < data.len()
            invariant
                i <= data@.len(),
                self.pending@ == old(self).pending@ + data@.take(i as int),
                self.channels == old(self).channels,
            decreases data@.len() - i,
        {
            self.pending.push(data[i]);
            assert(data@.take(i + 1) =~= data@.take(i as int).push(data@[i as int]));
            i = i + 1;
        }
        assert(data@.take(data@.len() as int) =~= data@);
        assert(self.pending@ =~= all);
        let out = convert_24bit_to_16bit(self.pending.as_slice(), self.channels);
        let n = samples_in_frames(self.pending.len(), self.channels, 3);
        proof {
            lemma_frame_samples_fit(all.len(), self.channels as nat, 3);
        }
        let mut rest: Vec<u8> = Vec::new();
        let mut j: usize = 3 * n;
        while j < self.pending.len()
            invariant
                3 * n <= j <= self.pending@.len(),
                self.pending@ == all,
                rest@ == all.subrange(3 * n as int, j as int),
            decreases self.pending@.len() - j,
        {
            rest.push(self.pending[j]);
            assert(all.subrange(3 * n as int, j + 1) =~= all.subrange(3 * n as int, j as int).push(all[j as int]));
            j = j + 1;
        }
        self.pending = rest;
        assert(all.skip(3 * n as int) =~= all.subrange(3 * n as int, all.len() as int));
        out
    }
}

/// Converting audio in two pieces through the buffer gives the same samples
/// as converting the two pieces joined: the split between calls loses and
/// repeats nothing.
pub proof fn lemma_buffered_conversion_is_seamless(pending: Seq<u8>, d1: Seq<u8>, d2: Seq<u8>, channels: nat)
    requires
        channels > 0,
    ensures
        buffered_output(pending, d1, channels) + buffered_output(buffered_rest(pending, d1, channels), d2, channels)
            == buffered_output(pending, d1 + d2, channels),
{
    let a = pending + d1;
    let whole = pending + (d1 + d2);
    assert(whole =~= a + d2);
    let f = 3 * channels;
    let n1 = frame_samples(a.len(), channels, 3);
    lemma_frame_samples_fit(a.len(), channels, 3);
    let r = a.skip(3 * n1 as int);
    let b = r + d2;
    assert(b =~= whole.skip(3 * n1 as int));
    let n2 = frame_samples(b.len(), channels, 3);
    lemma_frame_samples_fit(b.len(), channels, 3);
    let nw = frame_samples(whole.len(), channels, 3);
    // n1 + n2 == nw
    let q1 = a.len() as int / f as int;
    let q2 = b.len() as int / f as int;
    assert(f > 0);
    lemma_fundamental_div_mod(a.len() as int, f as int);
    lemma_mod_pos_bound(a.len() as int, f as int);
    lemma_fundamental_div_mod(b.len() as int, f as int);
    lemma_mod_pos_bound(b.len() as int, f as int);
    assert(n1 == q1 * channels);
    assert(3 * n1 == f * q1) by (nonlinear_arith)
        requires n1 == q1 * channels, f == 3 * channels;
    assert(b.len() == a.len() - f * q1 + d2.len());
    assert(whole.len() == f * (q1 + q2) + (b.len() as int % f as int)) by (nonlinear_arith)
        requires
            whole.len() == a.len() + d2.len(),
            b.len() == a.len() - f * q1 + d2.len(),
            b.len() == f * q2 + (b.len() as int % f as int);
    lemma_fundamental_div_mod_converse(whole.len() as int, f as int, q1 + q2, b.len() as int % f as int);
    assert(nw == (q1 + q2) * channels);
    assert(nw == n1 + n2) by (nonlinear_arith)
        requires nw == (q1 + q2) * channels, n1 == q1 * channels, n2 == q2 * channels;
    let lhs = s24_as_s16(a, n1) + s24_as_s16(b, n2);
    let rhs = s24_as_s16(whole, nw);
    assert forall|k: int| 0 <= k < nw implies #[trigger] lhs[k] == rhs[k] by {
        if k < n1 {
            assert(3 * k + 2 < a.len());
            assert(s24_at(a, k) == s24_at(whole, k));
        } else {
            let k2 = k - n1;
            assert(3 * k2 + 2 < b.len()) by (nonlinear_arith)
                requires k2 < n2, 3 * n2 <= b.len(), k2 >= 0;
            assert(b[3 * k2] == whole[3 * k] && b[3 * k2 + 1] == whole[3 * k + 1] && b[3 * k2 + 2] == whole[3 * k + 2]);
            assert(s24_at(b, k2) == s24_at(whole, k));
        }
    }
    assert(lhs =~= rhs);
}

// ---------------------------------------------------------------------------
// Writing to a device in the format it was opened with.

/// The sample format of an opened device, or asked for when opening it.
#[derive(Debug, Clone, Copy, PartialEq, Eq, Structural)]
pub enum DeviceFormat {
    S16LE,
    S24_3LE,
    S32LE,
    /// A format the writer does not handle.
    Other,
}

/// The format asked for a track of `bits` bits (16, 24 or 32).
pub fn requested_format(bits: u16) -> (f: Option<DeviceFormat>)
    ensures
        f == if bits == 16 {
            Some(DeviceFormat::S16LE)
        } else if bits == 24 {
            Some(DeviceFormat::S24_3LE)
        } else if bits == 32 {
            Some(DeviceFormat::S32LE)
        } else {
            None::<DeviceFormat>
        },
{
    match bits {
        16 => Some(DeviceFormat::S16LE),
        24 => Some(DeviceFormat::S24_3LE),
        32 => Some(DeviceFormat::S32LE),
        _ => None,
    }
}

/// The format tried when the device refuses the one asked for: 24-bit
/// audio falls back to 16 bits; nothing else has a fallback.
pub fn fallback_format(requested: DeviceFormat) -> (f: Option<DeviceFormat>)
    ensures
        f == if requested == DeviceFormat::S24_3LE { Some(DeviceFormat::S16LE) } else { None::<DeviceFormat> },
{
    match requested {
        DeviceFormat::S24_3LE => Some(DeviceFormat::S16LE),
        _ => None,
    }
}

/// How the bytes handed to the writer become device samples.
#[derive(Debug, Clone, Copy, PartialEq, Eq, Structural)]
pub enum WritePlan {
    /// 24-bit audio on a 16-bit device, through the conversion buffer.
    Buffered24To16,
    /// 32-bit audio on a 16-bit device.
    Convert32To16,
    /// 16-bit audio on a 16-bit device.
    Plain16,
    /// 24-bit audio widened to 32-bit samples.
    Widen24,
    /// 32-bit audio as it is.
    Plain32,
    /// The device's format is not handled.
    Unsupported,
}

/// The write path for audio asked for in `requested` on a device opened
/// in `actual`.
pub fn write_plan(actual: DeviceFormat, requested: DeviceFormat) -> (p: WritePlan)
    ensures
        p == match actual {
            DeviceFormat::S16LE => if requested == DeviceFormat::S24_3LE {
                WritePlan::Buffered24To16
            } else if requested == DeviceFormat::S32LE {
                WritePlan::Convert32To16
            } else {
                WritePlan::Plain16
            },
            DeviceFormat::S24_3LE => WritePlan::Widen24,
            DeviceFormat::S32LE => WritePlan::Plain32,
            DeviceFormat::Other => WritePlan::Unsupported,
        },
{
    match actual {
        DeviceFormat::S16LE => match requested {
            DeviceFormat::S24_3LE => WritePlan::Buffered24To16,
            DeviceFormat::S32LE => WritePlan::Convert32To16,
            _ => WritePlan::Plain16,
        },
        DeviceFormat::S24_3LE => WritePlan::Widen24,
        DeviceFormat::S32LE => WritePlan::Plain32,
        DeviceFormat::Other => WritePlan::Unsupported,
    }
}

/// Frames per period and periods per buffer asked of the device.
pub const PERIOD_FRAMES: u32 = 1024;
pub const PERIODS_PER_BUFFER: u32 = 4;

} // verus!
