use vstd::prelude::*;
use crate::audio::{BitsPerSample, Capabilities, SampleRate, StreamParams, adjusted_params};
use crate::player_state::PlayerState;
use crate::text::{decimal, digit_char, push_decimal};
use crate::view::{bits_label, bits_text, rate_label, rate_text};

verus! {

/// A number below 100 written with at least two digits (`{:0>2}`).
pub open spec fn two_digits(n: nat) -> Seq<char> {
    if n < 10 { seq!['0', digit_char(n)] } else { decimal(n) }
}

/// A duration in whole seconds as the player shows it: `00:ss` under a
/// minute, `mm:ss` under an hour, `h:mm:ss` from an hour on.
pub open spec fn time_text(seconds: nat) -> Seq<char> {
    let hours = seconds / 3600;
    let mins = (seconds % 3600) / 60;
    let secs = seconds % 60;
    if hours == 0 {
        if mins == 0 {
            "00:"@ + two_digits(secs)
        } else {
            two_digits(mins) + ":"@ + two_digits(secs)
        }
    } else {
        decimal(hours) + ":"@ + two_digits(mins) + ":"@ + two_digits(secs)
    }
}

fn push_two_digits(s: &mut String, n: u64)
    requires
        n < 100,
    ensures
        final(s)@ == old(s)@ + two_digits(n as nat),
{
    if n < 10 {
        s.append("0");
        proof {
            reveal_strlit("0");
        }
    }
    let ghost mid = s@;
    push_decimal(s, n);
    proof {
        if n < 10 {
            assert(decimal(n as nat) == seq![digit_char(n as nat)]);
            assert(final(s)@ =~= old(s)@ + two_digits(n as nat));
        }
    }
}

/// Formats a duration given in whole seconds (see `time_text`).
pub fn format_time(seconds: u64) -> (s: String)
    ensures
        s@ == time_text(seconds as nat),
{
    let hours = seconds / 3600;
    let mins = (seconds % 3600) / 60;
    let secs = seconds % 60;
    let mut s = String::new();
    proof {
        reveal_strlit("00:");
        reveal_strlit(":");
    }
    if hours == 0 {
        if mins == 0 {
            s.append("00:");
            push_two_digits(&mut s, secs);
        } else {
            push_two_digits(&mut s, mins);
            s.append(":");
            push_two_digits(&mut s, secs);
        }
    } else {
        push_decimal(&mut s, hours);
        s.append(":");
        push_two_digits(&mut s, mins);
        s.append(":");
        push_two_digits(&mut s, secs);
    }
    assert(s@ =~= time_text(seconds as nat));
    s
}

/// Why a track cannot be played as it is when resampling is off.
#[derive(Debug, Clone, Copy, PartialEq, Eq, Structural)]
pub enum NativeFormatError {
    /// The device lacks the track's rate; it would be resampled.
    WouldResample { from_rate: SampleRate, to_rate: SampleRate },
    /// The device lacks the track's width; it would lose bits.
    WouldDownconvert { from_bits: BitsPerSample, to_bits: BitsPerSample },
}

/// Whether a track with parameters `src` may be played as `adjusted`: with
/// resampling allowed always; otherwise only at its own rate and without
/// losing bits.
pub fn check_native_format(src: &StreamParams, adjusted: &StreamParams, resample: bool) -> (r: Result<(), NativeFormatError>)
    ensures
        r == if resample {
            Ok(())
        } else if adjusted.samplerate != src.samplerate {
            Err(NativeFormatError::WouldResample { from_rate: src.samplerate, to_rate: adjusted.samplerate })
        } else if adjusted.bits_per_sample.0 < src.bits_per_sample.0 {
            Err(NativeFormatError::WouldDownconvert { from_bits: src.bits_per_sample, to_bits: adjusted.bits_per_sample })
        } else {
            Ok::<(), NativeFormatError>(())
        },
{
    if !resample {
        if adjusted.samplerate.0 != src.samplerate.0 {
            return Err(NativeFormatError::WouldResample { from_rate: src.samplerate, to_rate: adjusted.samplerate });
        }
        if adjusted.bits_per_sample.0 < src.bits_per_sample.0 {
            return Err(NativeFormatError::WouldDownconvert { from_bits: src.bits_per_sample, to_bits: adjusted.bits_per_sample });
        }
    }
    Ok(())
}

/// The message refusing to play a track as it is.
pub open spec fn native_format_text(e: NativeFormatError) -> Seq<char> {
    match e {
        NativeFormatError::WouldResample { from_rate, to_rate } =>
            "Device does not support "@ + rate_text(from_rate.0 as nat) + " natively (would resample to "@
                + rate_text(to_rate.0 as nat) + "). Use --resample to allow."@,
        NativeFormatError::WouldDownconvert { from_bits, to_bits } =>
            "Device does not support "@ + bits_text(from_bits.0 as nat) + " natively (would downconvert to "@
                + bits_text(to_bits.0 as nat) + "). Use --resample to allow."@,
    }
}

impl NativeFormatError {
    /// `Device does not support 44.1kHz natively (would resample to 48kHz).
    /// Use --resample to allow.`, and the same for a sample width.
    pub fn message(&self) -> (m: String)
        ensures
            m@ == native_format_text(*self),
    {
        proof {
            reveal_strlit("Device does not support ");
            reveal_strlit(" natively (would resample to ");
            reveal_strlit(" natively (would downconvert to ");
            reveal_strlit("). Use --resample to allow.");
        }
        let mut m = String::from_str("Device does not support ");
        match *self {
            NativeFormatError::WouldResample { from_rate, to_rate } => {
                let a = rate_label(from_rate);
                m.append(a.as_str());
                m.append(" natively (would resample to ");
                let b = rate_label(to_rate);
                m.append(b.as_str());
            },
            NativeFormatError::WouldDownconvert { from_bits, to_bits } => {
                let a = bits_label(from_bits);
                m.append(a.as_str());
                m.append(" natively (would downconvert to ");
                let b = bits_label(to_bits);
                m.append(b.as_str());
            },
        }
        m.append("). Use --resample to allow.");
        assert(m@ =~= native_format_text(*self));
        m
    }
}

/// Whether a gapless continuation may take over the open stream: the next
/// track fits it (`gapless_compatible`) and the decoder of the current
/// track has finished (`decoder_finished` is `None` when there is none).
pub fn gapless_ready(compatible: bool, decoder_finished: Option<bool>) -> (b: bool)
    ensures
        b == (compatible && decoder_finished == Some(true)),
{
    compatible && match decoder_finished {
        Some(f) => f,
        None => false,
    }
}

/// Whether the finished decoder hands its stream on: only when it reached
/// the end of its track (`None`: the decoder thread panicked).
pub fn gapless_continues(ended: Option<DecoderEnd>) -> (b: bool)
    ensures
        b == (ended == Some(DecoderEnd::EndOfTrack)),
{
    match ended {
        Some(DecoderEnd::EndOfTrack) => true,
        _ => false,
    }
}

/// Whether the device plays a track at another rate or width than its own
/// (the player then shows the output format).
pub fn output_format_changed(src: &StreamParams, adjusted: &StreamParams) -> (b: bool)
    ensures
        b == (src.samplerate != adjusted.samplerate || src.bits_per_sample != adjusted.bits_per_sample),
{
    src.samplerate.0 != adjusted.samplerate.0 || src.bits_per_sample.0 != adjusted.bits_per_sample.0
}

/// Whether the next track may follow the current one on the open stream:
/// gapless playback is on, a stream is open (its device's capabilities and
/// parameters are known), and the next track adjusts to the same
/// parameters.
pub fn gapless_compatible(
    gapless: bool,
    cached_capabilities: Option<&Capabilities>,
    current_adjusted: Option<StreamParams>,
    next_src: &StreamParams,
) -> (b: bool)
    ensures
        b == (gapless && match (cached_capabilities, current_adjusted) {
            (Some(caps), Some(cur)) => adjusted_params(*next_src, caps.sample_rates@, caps.bits_per_samples@) == cur,
            _ => false,
        }),
{
    if !gapless {
        return false;
    }
    match (cached_capabilities, current_adjusted) {
        (Some(caps), Some(cur)) => {
            let adj = next_src.adjust_with_capabilities(caps);
            adj == cur
        },
        _ => false,
    }
}

/// The sample type a stream of a given width is written in.
#[derive(Debug, Clone, Copy, PartialEq, Eq, Structural)]
pub enum SampleKind {
    /// 16-bit integers.
    I16,
    /// 24-bit integers, packed in three bytes.
    I24,
    /// 32-bit floats.
    F32,
}

/// The sample type for a width; widths other than 16, 24 and 32 have none.
pub fn sample_kind(bits: BitsPerSample) -> (k: Option<SampleKind>)
    ensures
        k == if bits.0 == 16 {
            Some(SampleKind::I16)
        } else if bits.0 == 24 {
            Some(SampleKind::I24)
        } else if bits.0 == 32 {
            Some(SampleKind::F32)
        } else {
            None::<SampleKind>
        },
{
    match bits.0 {
        16 => Some(SampleKind::I16),
        24 => Some(SampleKind::I24),
        32 => Some(SampleKind::F32),
        _ => None,
    }
}

/// Whether decoded audio goes through the resampler: the device's rate
/// differs from the track's.
pub fn needs_resampling(src: &StreamParams, adjusted: &StreamParams) -> (b: bool)
    ensures
        b == (src.samplerate != adjusted.samplerate),
{
    src.samplerate.0 != adjusted.samplerate.0
}

/// What reading the next packet of a track gave.
#[derive(Debug, Clone, Copy, PartialEq, Eq, Structural)]
pub enum PacketRead {
    /// A packet to decode.
    Packet,
    /// The stream asks for the decoder to be reset.
    ResetRequired,
    /// The file ended.
    EndOfFile,
    /// Reading failed.
    Failed,
}

/// What the decoder loop does next.
#[derive(Debug, Clone, Copy, PartialEq, Eq, Structural)]
pub enum DecoderStep {
    /// Decode the packet and write it out.
    Decode,
    /// Reset the decoder and read again.
    Reset,
    /// Leave the loop: the track is over or playback stopped.
    Finish,
    /// Leave the loop with the read error.
    Fail,
}

/// The decoder loop's step: it finishes as soon as the player is stopped,
/// and otherwise by what the read gave.
pub fn decoder_step(state: PlayerState, read: PacketRead) -> (s: DecoderStep)
    ensures
        s == if state == PlayerState::Stopped {
            DecoderStep::Finish
        } else {
            match read {
                PacketRead::Packet => DecoderStep::Decode,
                PacketRead::ResetRequired => DecoderStep::Reset,
                PacketRead::EndOfFile => DecoderStep::Finish,
                PacketRead::Failed => DecoderStep::Fail,
            }
        },
{
    match state {
        PlayerState::Stopped => DecoderStep::Finish,
        _ => match read {
            PacketRead::Packet => DecoderStep::Decode,
            PacketRead::ResetRequired => DecoderStep::Reset,
            PacketRead::EndOfFile => DecoderStep::Finish,
            PacketRead::Failed => DecoderStep::Fail,
        },
    }
}

/// How a decoder thread ended.
#[derive(Debug, Clone, Copy, PartialEq, Eq, Structural)]
pub enum DecoderEnd {
    /// The track was decoded to its end while playing: the stream stays
    /// open for a gapless successor.
    EndOfTrack,
    /// Playback was stopped.
    Stopped,
    /// Decoding failed.
    Error,
}

/// A clean finish while the player is not stopped is the end of the track;
/// a clean finish after a stop is a stop; anything else is an error.
pub fn decoder_end(finished_cleanly: bool, state: PlayerState) -> (e: DecoderEnd)
    ensures
        e == if !finished_cleanly {
            DecoderEnd::Error
        } else if state != PlayerState::Stopped {
            DecoderEnd::EndOfTrack
        } else {
            DecoderEnd::Stopped
        },
{
    if !finished_cleanly {
        DecoderEnd::Error
    } else {
        match state {
            PlayerState::Stopped => DecoderEnd::Stopped,
            _ => DecoderEnd::EndOfTrack,
        }
    }
}

/// Whether the end-of-stream flag is raised when the decoder ends this way:
/// always but at the end of a track, whose stream a successor may reuse.
pub fn raises_end_of_stream(e: DecoderEnd) -> (b: bool)
    ensures
        b == (e != DecoderEnd::EndOfTrack),
{
    match e {
        DecoderEnd::EndOfTrack => false,
        _ => true,
    }
}

/// Progress of a blocking write into the ring buffer after one push.
#[derive(Debug, Clone, Copy, PartialEq, Eq, Structural)]
pub enum WriteProgress {
    /// Everything is written: wake the consumer once and return.
    Finished,
    /// Some bytes went in: wake the consumer and wait for room.
    Partial,
    /// Nothing went in: wait for room without waking the consumer.
    Stalled,
}

/// After `pushed` more bytes of a `len`-byte block went into the buffer at
/// `offset`: the new offset and how the write goes on.
pub fn after_push(offset: usize, pushed: usize, len: usize) -> (r: (usize, WriteProgress))
    requires
        offset + pushed <= usize::MAX,
    ensures
        r.0 == offset + pushed,
        r.1 == if offset + pushed >= len {
            WriteProgress::Finished
        } else if pushed > 0 {
            WriteProgress::Partial
        } else {
            WriteProgress::Stalled
        },
{
    let next = offset + pushed;
    if next >= len {
        (next, WriteProgress::Finished)
    } else if pushed > 0 {
        (next, WriteProgress::Partial)
    } else {
        (next, WriteProgress::Stalled)
    }
}

} // verus!
