use vstd::prelude::*;
use crate::audio::{BitsPerSample, SampleRate};
use crate::text::{decimal, digit_char, push_decimal};
use vstd::arithmetic::power2::pow2;

verus! {

/// The mark in the first column of a playlist row.
#[derive(Clone, Copy, Debug, PartialEq, Eq, Structural)]
pub enum RowMarker {
    Paused,
    Playing,
    Blank,
}

/// The playing track's row shows whether it is paused or playing (paused
/// wins); every other row, and the playing row when stopped, is blank.
pub fn row_marker(index: usize, playing_index: usize, is_paused: bool, is_playing: bool) -> (m: RowMarker)
    ensures
        m == if index == playing_index {
            if is_paused {
                RowMarker::Paused
            } else if is_playing {
                RowMarker::Playing
            } else {
                RowMarker::Blank
            }
        } else {
            RowMarker::Blank
        },
{
    if index == playing_index {
        if is_paused {
            RowMarker::Paused
        } else if is_playing {
            RowMarker::Playing
        } else {
            RowMarker::Blank
        }
    } else {
        RowMarker::Blank
    }
}

/// Rows alternate between two styles, starting with the even style.
pub fn is_even_row(index: usize) -> (b: bool)
    ensures
        b == (index % 2 == 0),
{
    index % 2 == 0
}

/// `Playlist - N`, the title of the playlist table.
pub fn playlist_title(count: usize) -> (s: String)
    ensures
        s@ == "Playlist - "@ + decimal(count as nat),
{
    let mut s = String::from_str("Playlist - ");
    proof {
        reveal_strlit("Playlist - ");
    }
    push_decimal(&mut s, count as u64);
    s
}

/// The scrollbar of a playlist of `len` tracks: its length is the last
/// index and its position the selected row (the first when none is).
pub fn scrollbar_state(len: usize, selected: Option<usize>) -> (r: (usize, usize))
    ensures
        r.0 == if len > 0 { len - 1 } else { 0 },
        r.1 == match selected {
            Some(i) => i,
            None => 0,
        },
{
    let content = if len > 0 { len - 1 } else { 0 };
    let position = match selected {
        Some(i) => i,
        None => 0,
    };
    (content, position)
}

/// What the now-playing panel shows.
#[derive(Clone, Copy, Debug, PartialEq, Eq, Structural)]
pub enum PanelContent {
    /// The playing track's details and progress.
    Track,
    /// The last error.
    Status,
    /// `No track playing`.
    Idle,
}

/// A playing track comes first, then an error message, then the idle text.
pub fn panel_content(has_track: bool, has_status: bool) -> (c: PanelContent)
    ensures
        c == if has_track {
            PanelContent::Track
        } else if has_status {
            PanelContent::Status
        } else {
            PanelContent::Idle
        },
{
    if has_track {
        PanelContent::Track
    } else if has_status {
        PanelContent::Status
    } else {
        PanelContent::Idle
    }
}

/// The labels of the track details, in order: title, artist, format, and
/// the output format when the device plays the track in another one.
pub fn detail_labels(has_output_info: bool) -> (labels: Vec<&'static str>)
    ensures
        labels@.len() == if has_output_info { 4int } else { 3int },
        labels@[0]@ == "Title: "@,
        labels@[1]@ == "Artist: "@,
        labels@[2]@ == "Info: "@,
        has_output_info ==> labels@[3]@ == "Playing as: "@,
{
    proof {
        reveal_strlit("Title: ");
        reveal_strlit("Artist: ");
        reveal_strlit("Info: ");
        reveal_strlit("Playing as: ");
    }
    let mut labels = vec!["Title: ", "Artist: ", "Info: "];
    if has_output_info {
        labels.push("Playing as: ");
    }
    labels
}

/// The progress bar leaves twenty cells of a row for the two times and
/// the spaces around them.
pub fn progress_bar_width(row_width: u16) -> (w: usize)
    ensures
        w == if row_width > 20 { row_width - 20 } else { 0 },
{
    if row_width > 20 { (row_width - 20) as usize } else { 0 }
}

/// The unfilled cells of a bar of `width` cells with `filled` filled.
pub fn empty_width(width: usize, filled: usize) -> (e: usize)
    ensures
        e == if width > filled { width - filled } else { 0 },
        filled <= width ==> e + filled == width,
{
    if width > filled { width - filled } else { 0 }
}


/// The first shift `s` (from `s` on) at which `rate * 2^s` reaches
/// `125 * 2^52`: the scale at which `rate / 1000` has its 53 significant
/// bits as a whole number, as a 64-bit float holds it.
pub open spec fn mantissa_shift(rate: nat, s: nat) -> nat
    decreases 64 - s,
{
    if s >= 64 || rate * pow2(s) >= 125 * pow2(52) { s } else { mantissa_shift(rate, s + 1) }
}

/// What is left over, in 125ths of a unit in the last place, when
/// `rate / 1000` is written with 53 significant bits: zero when the
/// quotient is exact, above 62 when the nearest float lies above it.
pub open spec fn float_residue(rate: nat) -> nat {
    (rate * pow2(mantissa_shift(rate, 0))) % 125
}

/// Whether `rate / 1000` shown with one decimal rounds its tenth up, as
/// formatting the nearest 64-bit float does: by the hundredths, and where
/// they are exactly half-way by the float's own value, which lies above or
/// below the half (and when exact, the tenth goes to the even digit).
pub open spec fn tenth_rounds_up(rate: nat) -> bool {
    let rem = rate % 100;
    if rem > 50 {
        true
    } else if rem < 50 {
        false
    } else if float_residue(rate) == 0 {
        (rate / 100) % 2 == 1
    } else {
        float_residue(rate) > 62
    }
}

/// A rate in kHz: whole kilohertz as they are, others with one decimal
/// rounded as the floating-point quotient `rate / 1000` is, followed by
/// `kHz`.
pub open spec fn rate_text(rate: nat) -> Seq<char> {
    if rate % 1000 == 0 {
        decimal(rate / 1000) + "kHz"@
    } else {
        let tenths = rate / 100 + if tenth_rounds_up(rate) { 1nat } else { 0nat };
        decimal(tenths / 10) + "."@ + seq![digit_char(tenths % 10)] + "kHz"@
    }
}

fn float_residue_of(rate: u32) -> (m: u64)
    ensures
        m == float_residue(rate as nat),
{
    let mut p: u128 = rate as u128;
    let mut sh: u64 = 0;
    let threshold: u128 = 125u128 * 0x10_0000_0000_0000u128;
    proof {
        vstd::arithmetic::power2::lemma2_to64();
        vstd::arithmetic::power2::lemma2_to64_rest();
        assert(p == rate * pow2(0));
        assert(threshold == 125 * pow2(52));
    }
    while sh < 64 && p < threshold
        invariant
            sh <= 64,
            p == rate * pow2(sh as nat),
            threshold == 125 * pow2(52),
            threshold == 125u128 * 0x10_0000_0000_0000u128,
            mantissa_shift(rate as nat, 0) == mantissa_shift(rate as nat, sh as nat),
            p <= 2 * threshold,
        decreases 64 - sh,
    {
        proof {
            vstd::arithmetic::power2::lemma_pow2_unfold((sh + 1) as nat);
            assert(p < threshold);
            let ps = pow2(sh as nat);
            assert(rate * pow2((sh + 1) as nat) == 2 * (rate * ps)) by (nonlinear_arith)
                requires pow2((sh + 1) as nat) == 2 * ps;
        }
        p = p * 2;
        sh = sh + 1;
    }
    (p % 125) as u64
}

fn rounds_up(rate: u32) -> (b: bool)
    ensures
        b == tenth_rounds_up(rate as nat),
{
    let rem = rate % 100;
    if rem > 50 {
        true
    } else if rem < 50 {
        false
    } else {
        let m = float_residue_of(rate);
        if m == 0 { (rate / 100) % 2 == 1 } else { m > 62 }
    }
}

/// A sample width followed by `bit`.
pub open spec fn bits_text(bits: nat) -> Seq<char> {
    decimal(bits) + "bit"@
}

/// The format of a track: `24bit - 44.1kHz`.
pub open spec fn format_text(bits: nat, rate: nat) -> Seq<char> {
    bits_text(bits) + " - "@ + rate_text(rate)
}

fn push_rate(s: &mut String, rate: SampleRate)
    ensures
        final(s)@ == old(s)@ + rate_text(rate.0 as nat),
{
    proof {
        reveal_strlit("kHz");
        reveal_strlit(".");
    }
    let r = rate.0 as u64;
    if r % 1000 == 0 {
        push_decimal(s, r / 1000);
        s.append("kHz");
    } else {
        let tenths: u64 = r / 100 + if rounds_up(rate.0) { 1 } else { 0 };
        push_decimal(s, tenths / 10);
        s.append(".");
        let digits = ['0', '1', '2', '3', '4', '5', '6', '7', '8', '9'];
        assert(digits@ =~= seq!['0', '1', '2', '3', '4', '5', '6', '7', '8', '9']);
        let d = digits[(tenths % 10) as usize];
        let ghost mid = s@;
        crate::text::push_char(s, d);
        s.append("kHz");
        assert(s@ =~= old(s)@ + rate_text(rate.0 as nat));
    }
}

/// `44.1kHz`, `96kHz` (see `rate_text`).
pub fn rate_label(rate: SampleRate) -> (s: String)
    ensures
        s@ == rate_text(rate.0 as nat),
{
    let mut s = String::new();
    push_rate(&mut s, rate);
    assert(s@ =~= rate_text(rate.0 as nat));
    s
}

/// `24bit`.
pub fn bits_label(bits: BitsPerSample) -> (s: String)
    ensures
        s@ == bits_text(bits.0 as nat),
{
    let mut s = String::new();
    push_decimal(&mut s, bits.0 as u64);
    s.append("bit");
    proof {
        reveal_strlit("bit");
    }
    assert(s@ =~= bits_text(bits.0 as nat));
    s
}

/// The format of a track as the playlist and the now-playing panel show
/// it: `24bit - 44.1kHz`.
pub fn format_label(bits: BitsPerSample, rate: SampleRate) -> (s: String)
    ensures
        s@ == format_text(bits.0 as nat, rate.0 as nat),
{
    let mut s = bits_label(bits);
    s.append(" - ");
    push_rate(&mut s, rate);
    proof {
        reveal_strlit(" - ");
    }
    assert(s@ =~= format_text(bits.0 as nat, rate.0 as nat));
    s
}

} // verus!
