use vstd::prelude::*;
use crate::audio::{BitsPerSample, Capabilities, SampleRate, StreamParams, all_bits, all_rates};
use crate::pipewire::{frame_bytes_spec, ring_bytes, ring_bytes_spec};
use crate::retry::RetryKind;
use crate::text::{
    char_pos, chars_of, find_char, find_str, find_str_in, has_prefix_at, lemma_find_str_bounds,
    decimal, parse_unsigned, parse_unsigned_in, push_char, push_chars, push_decimal, starts_with,
    trim, trim_bounds,
};

verus! {

// ---------------------------------------------------------------------------
// Device names of the form `hw:CARD,DEVICE`.

pub open spec fn hw_prefix() -> Seq<char> {
    seq!['h', 'w', ':']
}

/// The card number of an ALSA device name `hw:N[,...]`: the text after `hw:`
/// up to the first comma, read as a number.
pub open spec fn card_number_of(name: Seq<char>) -> Option<nat> {
    if starts_with(name, hw_prefix()) {
        let rest = name.subrange(3, name.len() as int);
        parse_unsigned(rest.subrange(0, char_pos(rest, ',') as int), u32::MAX as nat)
    } else {
        None
    }
}

/// The card and device numbers of `hw:N,M[,...]`; names of any other form
/// (`default`, `plughw:`, `dmix:`, a missing device number) have none.
pub open spec fn card_and_device_of(name: Seq<char>) -> Option<(nat, nat)> {
    if starts_with(name, hw_prefix()) {
        let rest = name.subrange(3, name.len() as int);
        let k = char_pos(rest, ',');
        let second = rest.subrange(k as int + 1, rest.len() as int);
        match parse_unsigned(rest.subrange(0, k as int), u32::MAX as nat) {
            Some(card) => if k < rest.len() {
                match parse_unsigned(second.subrange(0, char_pos(second, ',') as int), u32::MAX as nat) {
                    Some(dev) => Some((card, dev)),
                    None => None,
                }
            } else {
                None
            },
            None => None,
        }
    } else {
        None
    }
}

fn has_hw_prefix(v: &Vec<char>) -> (b: bool)
    ensures
        b == starts_with(v@, hw_prefix()),
{
    let p = ['h', 'w', ':'];
    assert(p@ =~= hw_prefix());
    let b = has_prefix_at(v, 0, v.len(), &p);
    assert(v@.subrange(0, v@.len() as int) =~= v@);
    b
}

/// Parses the card number out of a name such as `hw:5,0` (giving 5).
pub fn parse_card_number(device_name: &str) -> (card: Option<u32>)
    ensures
        match card_number_of(device_name@) {
            Some(n) => card == Some(n as u32),
            None => card is None,
        },
{
    let v = chars_of(device_name);
    if !has_hw_prefix(&v) {
        return None;
    }
    let end = v.len();
    let k = find_char(&v, 3, end, ',');
    assert(v@.subrange(3, end as int).subrange(0, (k - 3) as int) =~= v@.subrange(3, k as int));
    match parse_unsigned_in(&v, 3, k, u32::MAX as u64) {
        Some(n) => Some(n as u32),
        None => None,
    }
}

/// Parses `hw:N,M` into `(N, M)`.
pub fn parse_hw_card_dev(device_name: &str) -> (r: Option<(u32, u32)>)
    ensures
        match card_and_device_of(device_name@) {
            Some((c, d)) => r == Some((c as u32, d as u32)),
            None => r is None,
        },
{
    let v = chars_of(device_name);
    if !has_hw_prefix(&v) {
        return None;
    }
    let end = v.len();
    let ghost rest = v@.subrange(3, end as int);
    let k = find_char(&v, 3, end, ',');
    assert(rest.subrange(0, (k - 3) as int) =~= v@.subrange(3, k as int));
    let card = match parse_unsigned_in(&v, 3, k, u32::MAX as u64) {
        Some(n) => n as u32,
        None => return None,
    };
    if k == end {
        return None;
    }
    let ghost second = rest.subrange(k - 3 + 1, rest.len() as int);
    assert(second =~= v@.subrange(k + 1, end as int));
    let k2 = find_char(&v, k + 1, end, ',');
    assert(second.subrange(0, (k2 - (k + 1)) as int) =~= v@.subrange(k + 1, k2 as int));
    match parse_unsigned_in(&v, k + 1, k2, u32::MAX as u64) {
        Some(d) => Some((card, d as u32)),
        None => None,
    }
}

} // verus!

verus! {

// ---------------------------------------------------------------------------
// USB audio stream descriptors (`/proc/asound/cardN/stream0`).

pub open spec fn playback_marker() -> Seq<char> {
    seq!['P', 'l', 'a', 'y', 'b', 'a', 'c', 'k', ':']
}

pub open spec fn rates_marker() -> Seq<char> {
    seq!['R', 'a', 't', 'e', 's', ':']
}

pub open spec fn bits_marker() -> Seq<char> {
    seq!['B', 'i', 't', 's', ':']
}

pub open spec fn capture_marker() -> Seq<char> {
    seq!['C', 'a', 'p', 't', 'u', 'r', 'e', ':']
}

/// Where the first `p` starts in `s`, or the end of `s` when it does not
/// occur.
pub open spec fn marker_or_end(s: Seq<char>, p: Seq<char>) -> nat {
    match find_str(s, p) {
        Some(j) => j,
        None => s.len(),
    }
}

/// The text of the playback section: what follows the first `Playback:`, up
/// to the next section (`Playback:` or `Capture:`) or the end.
pub open spec fn playback_section(content: Seq<char>) -> Option<Seq<char>> {
    match find_str(content, playback_marker()) {
        None => None,
        Some(i) => {
            let rest = content.subrange(i as int + 9, content.len() as int);
            let a = marker_or_end(rest, playback_marker());
            let b = marker_or_end(rest, capture_marker());
            Some(rest.subrange(0, if a < b { a as int } else { b as int }))
        },
    }
}

/// The number one comma-separated piece stands for, if it reads as one.
pub open spec fn piece_values(piece: Seq<char>, max: nat) -> Set<nat> {
    match parse_unsigned(trim(piece), max) {
        Some(n) => Set::empty().insert(n),
        None => Set::empty(),
    }
}

/// The numbers of a comma-separated list; pieces that do not read as a number
/// are skipped.
pub open spec fn list_values(s: Seq<char>, max: nat) -> Set<nat>
    decreases s.len(),
{
    let k = char_pos(s, ',');
    if k < s.len() {
        piece_values(s.subrange(0, k as int), max).union(
            list_values(s.subrange(k as int + 1, s.len() as int), max),
        )
    } else {
        piece_values(s, max)
    }
}

/// The rates one line lists: `Rates: 96000, 88200, ...`.
pub open spec fn line_rates(line: Seq<char>) -> Set<nat> {
    let t = trim(line);
    if starts_with(t, rates_marker()) {
        list_values(t.subrange(6, t.len() as int), u32::MAX as nat)
    } else {
        Set::empty()
    }
}

/// The width one line gives: `Bits: 24`.
pub open spec fn line_bits(line: Seq<char>) -> Set<nat> {
    let t = trim(line);
    if starts_with(t, bits_marker()) {
        piece_values(t.subrange(5, t.len() as int), u16::MAX as nat)
    } else {
        Set::empty()
    }
}

/// The rates all lines of `s` list.
pub open spec fn text_rates(s: Seq<char>) -> Set<nat>
    decreases s.len(),
{
    let k = char_pos(s, '\n');
    if k < s.len() {
        line_rates(s.subrange(0, k as int)).union(text_rates(s.subrange(k as int + 1, s.len() as int)))
    } else {
        line_rates(s)
    }
}

/// The widths all lines of `s` give.
pub open spec fn text_bits(s: Seq<char>) -> Set<nat>
    decreases s.len(),
{
    let k = char_pos(s, '\n');
    if k < s.len() {
        line_bits(s.subrange(0, k as int)).union(text_bits(s.subrange(k as int + 1, s.len() as int)))
    } else {
        line_bits(s)
    }
}

/// The rates and widths a stream descriptor file declares for playback, when
/// it has a playback section naming at least one of each.
pub open spec fn usb_descriptor_formats(content: Seq<char>) -> Option<(Set<nat>, Set<nat>)> {
    match playback_section(content) {
        None => None,
        Some(sec) => if text_rates(sec) == Set::<nat>::empty() || text_bits(sec) == Set::<nat>::empty() {
            None
        } else {
            Some((text_rates(sec), text_bits(sec)))
        },
    }
}

/// The rates of `v` as numbers.
pub open spec fn rate_numbers(v: Seq<SampleRate>) -> Seq<u64> {
    v.map_values(|x: SampleRate| x.0 as u64)
}

/// The widths of `v` as numbers.
pub open spec fn width_numbers(v: Seq<BitsPerSample>) -> Seq<u64> {
    v.map_values(|x: BitsPerSample| x.0 as u64)
}

/// The numbers held by `v`.
pub open spec fn elems(v: Seq<u64>) -> Set<nat> {
    Set::new(|n: nat| exists|i: int| 0 <= i < v.len() && v[i] as nat == n)
}

pub open spec fn strictly_increasing(v: Seq<u64>) -> bool {
    forall|i: int, j: int| 0 <= i < j < v.len() ==> v[i] < v[j]
}

pub open spec fn bounded_by(v: Seq<u64>, max: nat) -> bool {
    forall|i: int| 0 <= i < v.len() ==> v[i] <= max
}

/// Adds `x` to the increasing list `v`, keeping it increasing and free of
/// repeats.
fn insert_sorted(v: &mut Vec<u64>, x: u64)
    requires
        strictly_increasing(old(v)@),
    ensures
        strictly_increasing(final(v)@),
        elems(final(v)@) == elems(old(v)@).insert(x as nat),
        forall|i: int| 0 <= i < final(v)@.len() ==> (final(v)@[i] == x || old(v)@.contains(#[trigger] final(v)@[i])),
{
    let mut p: usize = 0;
    while p < v.len() && v[p] < x
        invariant
            p <= v.len(),
            forall|i: int| 0 <= i < p ==> v@[i] < x,
        decreases v.len() - p,
    {
        p = p + 1;
    }
    if p < v.len() && v[p] == x {
        assert(elems(v@) =~= elems(v@).insert(x as nat)) by {
            assert(v@[p as int] as nat == x as nat);
        }
        assert forall|i: int| 0 <= i < v@.len() implies (v@[i] == x || v@.contains(#[trigger] v@[i])) by {
            assert(v@.contains(v@[i]));
        }
        return;
    }
    let ghost before = v@;
    v.insert(p, x);
    assert(v@ == before.insert(p as int, x));
    assert(elems(v@) =~= elems(before).insert(x as nat)) by {
        assert forall|n: nat| elems(v@).contains(n) implies elems(before).insert(x as nat).contains(n) by {
            let i = choose|i: int| 0 <= i < v@.len() && v@[i] as nat == n;
            if i < p {
                assert(before[i] as nat == n);
            } else if i > p {
                assert(before[i - 1] as nat == n);
            }
        }
        assert forall|n: nat| elems(before).insert(x as nat).contains(n) implies elems(v@).contains(n) by {
            if n == x as nat {
                assert(v@[p as int] as nat == n);
            } else {
                let i = choose|i: int| 0 <= i < before.len() && before[i] as nat == n;
                if i < p {
                    assert(v@[i] as nat == n);
                } else {
                    assert(v@[i + 1] as nat == n);
                }
            }
        }
    }
    assert forall|i: int| 0 <= i < v@.len() implies (v@[i] == x || before.contains(#[trigger] v@[i])) by {
        if i < p {
            assert(before[i] == v@[i]);
        } else if i > p {
            assert(before[i - 1] == v@[i]);
        }
    }
}

/// Adds the number `v[start..end]` stands for (after trimming), if any.
fn add_piece(v: &Vec<char>, start: usize, end: usize, max: u64, acc: &mut Vec<u64>)
    requires
        start <= end <= v.len(),
        strictly_increasing(old(acc)@),
        bounded_by(old(acc)@, max as nat),
    ensures
        strictly_increasing(final(acc)@),
        bounded_by(final(acc)@, max as nat),
        elems(final(acc)@) == elems(old(acc)@).union(
            piece_values(v@.subrange(start as int, end as int), max as nat),
        ),
{
    let (a, b) = trim_bounds(v, start, end);
    match parse_unsigned_in(v, a, b, max) {
        Some(n) => {
            insert_sorted(acc, n);
            assert(elems(final(acc)@) =~= elems(old(acc)@).union(
                piece_values(v@.subrange(start as int, end as int), max as nat),
            ));
            assert forall|i: int| 0 <= i < acc@.len() implies acc@[i] <= max by {
                if acc@[i] != n {
                    assert(old(acc)@.contains(acc@[i]));
                }
            }
        },
        None => {
            assert(elems(acc@) =~= elems(acc@).union(
                piece_values(v@.subrange(start as int, end as int), max as nat),
            ));
        },
    }
}

/// Adds the numbers of the comma-separated list `v[start..end]`.
fn add_list(v: &Vec<char>, start: usize, end: usize, max: u64, acc: &mut Vec<u64>)
    requires
        start <= end <= v.len(),
        strictly_increasing(old(acc)@),
        bounded_by(old(acc)@, max as nat),
    ensures
        strictly_increasing(final(acc)@),
        bounded_by(final(acc)@, max as nat),
        elems(final(acc)@) == elems(old(acc)@).union(
            list_values(v@.subrange(start as int, end as int), max as nat),
        ),
{
    let ghost total = list_values(v@.subrange(start as int, end as int), max as nat);
    let ghost initial = elems(acc@);
    let mut pos = start;
    loop
        invariant
            start <= pos <= end <= v.len(),
            initial == elems(old(acc)@),
            total == list_values(v@.subrange(start as int, end as int), max as nat),
            strictly_increasing(acc@),
            bounded_by(acc@, max as nat),
            initial.union(total) == elems(acc@).union(
                list_values(v@.subrange(pos as int, end as int), max as nat),
            ),
        decreases end - pos,
    {
        let k = find_char(v, pos, end, ',');
        let ghost rest = v@.subrange(pos as int, end as int);
        let ghost before = elems(acc@);
        if k < end {
            assert(rest.subrange(0, (k - pos) as int) =~= v@.subrange(pos as int, k as int));
            assert(rest.subrange((k - pos) + 1, rest.len() as int) =~= v@.subrange(k + 1, end as int));
            add_piece(v, pos, k, max, acc);
            assert(initial.union(total) =~= elems(acc@).union(
                list_values(v@.subrange(k + 1, end as int), max as nat),
            ));
            pos = k + 1;
        } else {
            add_piece(v, pos, end, max, acc);
            assert(initial.union(total) =~= elems(acc@));
            return;
        }
    }
}

/// Adds what the line `v[start..end]` declares.
fn add_line(v: &Vec<char>, start: usize, end: usize, rates: &mut Vec<u64>, bits: &mut Vec<u64>)
    requires
        start <= end <= v.len(),
        strictly_increasing(old(rates)@),
        bounded_by(old(rates)@, u32::MAX as nat),
        strictly_increasing(old(bits)@),
        bounded_by(old(bits)@, u16::MAX as nat),
    ensures
        strictly_increasing(final(rates)@),
        bounded_by(final(rates)@, u32::MAX as nat),
        strictly_increasing(final(bits)@),
        bounded_by(final(bits)@, u16::MAX as nat),
        elems(final(rates)@) == elems(old(rates)@).union(line_rates(v@.subrange(start as int, end as int))),
        elems(final(bits)@) == elems(old(bits)@).union(line_bits(v@.subrange(start as int, end as int))),
{
    let ghost line = v@.subrange(start as int, end as int);
    let (a, b) = trim_bounds(v, start, end);
    let rm = ['R', 'a', 't', 'e', 's', ':'];
    assert(rm@ =~= rates_marker());
    let bm = ['B', 'i', 't', 's', ':'];
    assert(bm@ =~= bits_marker());
    if has_prefix_at(v, a, b, &rm) {
        assert(trim(line).subrange(6, trim(line).len() as int) =~= v@.subrange(a + 6, b as int));
        add_list(v, a + 6, b, u32::MAX as u64, rates);
    } else {
        assert(elems(rates@) =~= elems(rates@).union(line_rates(line)));
    }
    if has_prefix_at(v, a, b, &bm) {
        assert(trim(line).subrange(5, trim(line).len() as int) =~= v@.subrange(a + 5, b as int));
        add_piece(v, a + 5, b, u16::MAX as u64, bits);
    } else {
        assert(elems(bits@) =~= elems(bits@).union(line_bits(line)));
    }
}

/// Reads the playback formats a USB audio device declares in its stream
/// descriptor file: the rates and widths of the `Playback:` section (up to the next section), each in
/// increasing order and without repeats. Gives nothing when the file has no
/// playback section or the section names no rate or no width.
pub fn parse_usb_stream_descriptors(content: &str) -> (r: Option<(Vec<SampleRate>, Vec<BitsPerSample>)>)
    ensures
        match usb_descriptor_formats(content@) {
            None => r is None,
            Some((rs, bs)) => r matches Some((rates, bits)) && {
                &&& strictly_increasing(rate_numbers(rates@))
                &&& elems(rate_numbers(rates@)) == rs
                &&& strictly_increasing(width_numbers(bits@))
                &&& elems(width_numbers(bits@)) == bs
            },
        },
{
    let v = chars_of(content);
    let n = v.len();
    let pm = ['P', 'l', 'a', 'y', 'b', 'a', 'c', 'k', ':'];
    assert(pm@ =~= playback_marker());
    let first = match find_str_in(&v, 0, n, &pm) {
        Some(i) => i,
        None => {
            assert(v@.subrange(0, n as int) =~= v@);
            return None;
        },
    };
    assert(v@.subrange(0, n as int) =~= v@);
    proof {
        lemma_find_str_bounds(v@, playback_marker());
    }
    let sec_start = first + 9;
    let cm = ['C', 'a', 'p', 't', 'u', 'r', 'e', ':'];
    assert(cm@ =~= capture_marker());
    let next_playback = match find_str_in(&v, sec_start, n, &pm) {
        Some(j) => j,
        None => n,
    };
    let next_capture = match find_str_in(&v, sec_start, n, &cm) {
        Some(j) => j,
        None => n,
    };
    let sec_end = if next_playback < next_capture { next_playback } else { next_capture };
    proof {
        lemma_find_str_bounds(v@.subrange(sec_start as int, n as int), playback_marker());
        lemma_find_str_bounds(v@.subrange(sec_start as int, n as int), capture_marker());
    }
    assert(playback_section(v@) == Some(v@.subrange(sec_start as int, sec_end as int))) by {
        let rest = v@.subrange(sec_start as int, n as int);
        assert(rest.subrange(0, (sec_end - sec_start) as int) =~= v@.subrange(sec_start as int, sec_end as int));
    }
    let ghost sec = v@.subrange(sec_start as int, sec_end as int);
    let mut rates: Vec<u64> = Vec::new();
    let mut bits: Vec<u64> = Vec::new();
    assert(elems(rates@) =~= Set::<nat>::empty());
    assert(elems(bits@) =~= Set::<nat>::empty());
    let mut pos = sec_start;
    loop
        invariant
            sec_start <= pos <= sec_end <= v.len(),
            sec == v@.subrange(sec_start as int, sec_end as int),
            strictly_increasing(rates@),
            bounded_by(rates@, u32::MAX as nat),
            strictly_increasing(bits@),
            bounded_by(bits@, u16::MAX as nat),
            text_rates(sec) == elems(rates@).union(text_rates(v@.subrange(pos as int, sec_end as int))),
            text_bits(sec) == elems(bits@).union(text_bits(v@.subrange(pos as int, sec_end as int))),
        ensures
            sec == v@.subrange(sec_start as int, sec_end as int),
            strictly_increasing(rates@),
            bounded_by(rates@, u32::MAX as nat),
            strictly_increasing(bits@),
            bounded_by(bits@, u16::MAX as nat),
            text_rates(sec) == elems(rates@),
            text_bits(sec) == elems(bits@),
        decreases sec_end - pos,
    {
        let k = find_char(&v, pos, sec_end, '\n');
        let ghost rest = v@.subrange(pos as int, sec_end as int);
        if k < sec_end {
            assert(rest.subrange(0, (k - pos) as int) =~= v@.subrange(pos as int, k as int));
            assert(rest.subrange((k - pos) + 1, rest.len() as int) =~= v@.subrange(k + 1, sec_end as int));
            add_line(&v, pos, k, &mut rates, &mut bits);
            assert(text_rates(sec) =~= elems(rates@).union(text_rates(v@.subrange(k + 1, sec_end as int))));
            assert(text_bits(sec) =~= elems(bits@).union(text_bits(v@.subrange(k + 1, sec_end as int))));
            pos = k + 1;
        } else {
            add_line(&v, pos, sec_end, &mut rates, &mut bits);
            assert(text_rates(sec) =~= elems(rates@));
            assert(text_bits(sec) =~= elems(bits@));
            break;
        }
    }
    if rates.len() == 0 || bits.len() == 0 {
        proof {
            if rates.len() == 0 {
                assert(elems(rates@) =~= Set::<nat>::empty());
            } else {
                assert(elems(bits@) =~= Set::<nat>::empty());
            }
        }
        return None;
    }
    proof {
        assert(elems(rates@).contains(rates@[0] as nat));
        assert(elems(bits@).contains(bits@[0] as nat));
    }
    let mut out_rates: Vec<SampleRate> = Vec::new();
    let mut i: usize = 0;
    while i < rates.len()
        invariant
            i <= rates.len(),
            bounded_by(rates@, u32::MAX as nat),
            out_rates@.len() == i,
            forall|j: int| 0 <= j < i ==> #[trigger] out_rates@[j].0 as u64 == rates@[j],
        decreases rates.len() - i,
    {
        assert(rates@[i as int] <= u32::MAX);
        out_rates.push(SampleRate(rates[i] as u32));
        i = i + 1;
    }
    assert(rate_numbers(out_rates@) =~= rates@);
    let mut out_bits: Vec<BitsPerSample> = Vec::new();
    let mut i: usize = 0;
    while i < bits.len()
        invariant
            i <= bits.len(),
            bounded_by(bits@, u16::MAX as nat),
            out_bits@.len() == i,
            forall|j: int| 0 <= j < i ==> #[trigger] out_bits@[j].0 as u64 == bits@[j],
        decreases bits.len() - i,
    {
        assert(bits@[i as int] <= u16::MAX);
        out_bits.push(BitsPerSample(bits[i] as u16));
        i = i + 1;
    }
    assert(width_numbers(out_bits@) =~= bits@);
    Some((out_rates, out_bits))
}

} // verus!

verus! {

/// What a stream descriptor file tells about the device `device_name`: only
/// raw `hw:N,...` devices have one.
pub open spec fn descriptor_formats_for(device_name: Seq<char>, content: Option<Seq<char>>) -> Option<(Set<nat>, Set<nat>)> {
    match (card_number_of(device_name), content) {
        (Some(_), Some(c)) => usb_descriptor_formats(c),
        _ => None,
    }
}

/// The capabilities of an ALSA device as its USB stream descriptor declares
/// them. `stream_file` is the content of `/proc/asound/cardN/stream0` for the
/// card the name designates, when that file could be read. `None` means the
/// caller must probe the hardware parameters instead.
pub fn probe_capabilities(device_name: &str, stream_file: Option<&str>) -> (r: Option<(Vec<SampleRate>, Vec<BitsPerSample>)>)
    ensures
        match descriptor_formats_for(device_name@, match stream_file { Some(s) => Some(s@), None => None }) {
            None => r is None,
            Some((rs, bs)) => r matches Some((rates, bits)) && {
                &&& strictly_increasing(rate_numbers(rates@))
                &&& elems(rate_numbers(rates@)) == rs
                &&& strictly_increasing(width_numbers(bits@))
                &&& elems(width_numbers(bits@)) == bs
            },
        },
{
    match parse_card_number(device_name) {
        Some(_) => match stream_file {
            Some(content) => parse_usb_stream_descriptors(content),
            None => None,
        },
        None => None,
    }
}

// ---------------------------------------------------------------------------
// Names and paths.

pub open spec fn hw_device_name_spec(card: nat, dev: nat) -> Seq<char> {
    hw_prefix() + decimal(card) + seq![','] + decimal(dev)
}

/// `hw:CARD,DEV`.
pub fn hw_device_name(card: u32, dev: u32) -> (s: String)
    ensures
        s@ == hw_device_name_spec(card as nat, dev as nat),
{
    let mut s = String::new();
    push_char(&mut s, 'h');
    push_char(&mut s, 'w');
    push_char(&mut s, ':');
    push_decimal(&mut s, card as u64);
    push_char(&mut s, ',');
    push_decimal(&mut s, dev as u64);
    assert(s@ =~= hw_device_name_spec(card as nat, dev as nat));
    s
}

pub open spec fn stream_file_path_spec(card: nat) -> Seq<char> {
    seq!['/', 'p', 'r', 'o', 'c', '/', 'a', 's', 'o', 'u', 'n', 'd', '/', 'c', 'a', 'r', 'd']
        + decimal(card) + seq!['/', 's', 't', 'r', 'e', 'a', 'm', '0']
}

fn push_literal(s: &mut String, lit: &[char])
    ensures
        final(s)@ == old(s)@ + lit@,
{
    let ghost start = s@;
    let mut i: usize = 0;
    while i < lit.len()
        invariant
            i <= lit.len(),
            s@ == start + lit@.take(i as int),
        decreases lit.len() - i,
    {
        push_char(s, lit[i]);
        assert(lit@.take(i + 1) =~= lit@.take(i as int).push(lit@[i as int]));
        i = i + 1;
    }
    assert(lit@.take(lit.len() as int) =~= lit@);
}

/// `/proc/asound/cardN/stream0`, the USB stream descriptor file of card `N`.
pub fn stream_file_path(card: u32) -> (s: String)
    ensures
        s@ == stream_file_path_spec(card as nat),
{
    let mut s = String::new();
    let head = ['/', 'p', 'r', 'o', 'c', '/', 'a', 's', 'o', 'u', 'n', 'd', '/', 'c', 'a', 'r', 'd'];
    let tail = ['/', 's', 't', 'r', 'e', 'a', 'm', '0'];
    push_literal(&mut s, &head);
    push_decimal(&mut s, card as u64);
    push_literal(&mut s, &tail);
    assert(head@ =~= seq!['/', 'p', 'r', 'o', 'c', '/', 'a', 's', 'o', 'u', 'n', 'd', '/', 'c', 'a', 'r', 'd']);
    assert(tail@ =~= seq!['/', 's', 't', 'r', 'e', 'a', 'm', '0']);
    assert(s@ =~= stream_file_path_spec(card as nat));
    s
}

pub open spec fn device_node_path_spec(card: nat, dev: nat) -> Seq<char> {
    seq!['/', 'd', 'e', 'v', '/', 's', 'n', 'd', '/', 'p', 'c', 'm', 'C'] + decimal(card) + seq!['D']
        + decimal(dev) + seq!['p']
}

/// `/dev/snd/pcmCNDMp`, the device node of the playback PCM `hw:N,M`.
pub fn device_node_path(card: u32, dev: u32) -> (s: String)
    ensures
        s@ == device_node_path_spec(card as nat, dev as nat),
{
    let mut s = String::new();
    let head = ['/', 'd', 'e', 'v', '/', 's', 'n', 'd', '/', 'p', 'c', 'm', 'C'];
    push_literal(&mut s, &head);
    push_decimal(&mut s, card as u64);
    push_char(&mut s, 'D');
    push_decimal(&mut s, dev as u64);
    push_char(&mut s, 'p');
    assert(head@ =~= seq!['/', 'd', 'e', 'v', '/', 's', 'n', 'd', '/', 'p', 'c', 'm', 'C']);
    assert(s@ =~= device_node_path_spec(card as nat, dev as nat));
    s
}

/// A playback device found on the system.
pub struct AlsaDeviceEntry {
    pub device_name: String,
    pub friendly_name: String,
    pub is_default: bool,
}

pub open spec fn friendly_name_spec(card_name: Seq<char>, pcm_name: Seq<char>) -> Seq<char> {
    card_name + seq![' ', '['] + pcm_name + seq![']']
}

pub open spec fn card_fallback_name(card: nat) -> Seq<char> {
    seq!['C', 'a', 'r', 'd', ' '] + decimal(card)
}

pub open spec fn unknown_name() -> Seq<char> {
    seq!['u', 'n', 'k', 'n', 'o', 'w', 'n']
}

/// The entry for device `dev` of card `card`: named `hw:card,dev`, described as
/// `CARD NAME [PCM NAME]` (the card name defaulting to `Card N`, the PCM name
/// to `unknown`), and the default device when it is `hw:0,0`.
pub fn device_entry(card: u32, card_name: Option<&str>, dev: u32, pcm_name: Option<&str>) -> (e: AlsaDeviceEntry)
    ensures
        e.device_name@ == hw_device_name_spec(card as nat, dev as nat),
        e.friendly_name@ == friendly_name_spec(
            match card_name { Some(n) => n@, None => card_fallback_name(card as nat) },
            match pcm_name { Some(n) => n@, None => unknown_name() },
        ),
        e.is_default == (card == 0 && dev == 0),
{
    let device_name = hw_device_name(card, dev);
    let mut friendly = String::new();
    match card_name {
        Some(n) => {
            let cs = chars_of(n);
            push_chars(&mut friendly, &cs);
        },
        None => {
            let lit = ['C', 'a', 'r', 'd', ' '];
            push_literal(&mut friendly, &lit);
            push_decimal(&mut friendly, card as u64);
            assert(lit@ =~= seq!['C', 'a', 'r', 'd', ' ']);
        },
    }
    push_char(&mut friendly, ' ');
    push_char(&mut friendly, '[');
    match pcm_name {
        Some(n) => {
            let ps = chars_of(n);
            push_chars(&mut friendly, &ps);
        },
        None => {
            let lit = ['u', 'n', 'k', 'n', 'o', 'w', 'n'];
            push_literal(&mut friendly, &lit);
            assert(lit@ =~= unknown_name());
        },
    }
    push_char(&mut friendly, ']');
    assert(friendly@ =~= friendly_name_spec(
        match card_name { Some(n) => n@, None => card_fallback_name(card as nat) },
        match pcm_name { Some(n) => n@, None => unknown_name() },
    ));
    AlsaDeviceEntry { device_name, friendly_name: friendly, is_default: card == 0 && dev == 0 }
}

} // verus!

verus! {

pub open spec fn default_device_description() -> Seq<char> {
    seq!['D', 'e', 'f', 'a', 'u', 'l', 't', ' ', 'A', 'L', 'S', 'A', ' ', 'd', 'e', 'v', 'i', 'c', 'e']
}

/// The device list as it is offered: the devices found, or, when none was
/// found, a single default entry for `hw:0,0`.
pub fn finish_device_list(found: Vec<AlsaDeviceEntry>) -> (list: Vec<AlsaDeviceEntry>)
    ensures
        found.len() > 0 ==> list@ == found@,
        found.len() == 0 ==> list.len() == 1 && list@[0].device_name@ == hw_device_name_spec(0, 0)
            && list@[0].friendly_name@ == default_device_description() && list@[0].is_default,
{
    if found.len() > 0 {
        return found;
    }
    let device_name = hw_device_name(0, 0);
    let mut friendly_name = String::new();
    let lit = ['D', 'e', 'f', 'a', 'u', 'l', 't', ' ', 'A', 'L', 'S', 'A', ' ', 'd', 'e', 'v', 'i', 'c', 'e'];
    push_literal(&mut friendly_name, &lit);
    assert(lit@ =~= default_device_description());
    assert(friendly_name@ =~= default_device_description());
    let mut list = Vec::new();
    list.push(AlsaDeviceEntry { device_name, friendly_name, is_default: true });
    list
}

/// Why no device could be chosen.
#[derive(Debug, Clone, Copy, PartialEq, Eq, Structural)]
pub enum DeviceSelectError {
    /// The requested index is past the end of the list.
    IndexNotFound(u32),
    /// The list is empty.
    NoDevices,
}

/// Which entry of a list of `count` devices is opened for the request `id`:
/// entry `id` when given, else the first one.
pub fn select_device_index(count: usize, id: Option<u32>) -> (r: Result<usize, DeviceSelectError>)
    ensures
        match id {
            Some(i) => if (i as nat) < count { r == Ok::<usize, DeviceSelectError>(i as usize) } else { r == Err::<usize, DeviceSelectError>(DeviceSelectError::IndexNotFound(i)) },
            None => if count > 0 { r == Ok::<usize, DeviceSelectError>(0) } else { r == Err::<usize, DeviceSelectError>(DeviceSelectError::NoDevices) },
        },
{
    match id {
        Some(i) => if (i as usize) < count {
            Ok(i as usize)
        } else {
            Err(DeviceSelectError::IndexNotFound(i))
        },
        None => if count > 0 {
            Ok(0)
        } else {
            Err(DeviceSelectError::NoDevices)
        },
    }
}

// ---------------------------------------------------------------------------
// Opening a PCM.

/// The sample formats the ALSA backend writes.
#[derive(Debug, Clone, Copy, PartialEq, Eq, Structural)]
pub enum PcmFormat {
    /// Signed 16-bit little-endian.
    S16LE,
    /// Signed 24-bit little-endian packed in 3 bytes.
    S24_3LE,
    /// 32-bit IEEE float little-endian.
    FloatLE,
}

/// The PCM format for a sample width: 16 → S16LE, 24 → packed S24_3LE (the
/// decoder writes 3-byte samples), 32 → float; other widths are refused.
pub fn bits_to_format(bits: BitsPerSample) -> (r: Result<PcmFormat, u16>)
    ensures
        bits.0 == 16 ==> r == Ok::<PcmFormat, u16>(PcmFormat::S16LE),
        bits.0 == 24 ==> r == Ok::<PcmFormat, u16>(PcmFormat::S24_3LE),
        bits.0 == 32 ==> r == Ok::<PcmFormat, u16>(PcmFormat::FloatLE),
        bits.0 != 16 && bits.0 != 24 && bits.0 != 32 ==> r == Err::<PcmFormat, u16>(bits.0),
{
    match bits.0 {
        16 => Ok(PcmFormat::S16LE),
        24 => Ok(PcmFormat::S24_3LE),
        32 => Ok(PcmFormat::FloatLE),
        other => Err(other),
    }
}

/// The byte sizes of an opened PCM.
#[derive(Debug, Clone, Copy, PartialEq, Eq, Structural)]
pub struct PcmLayout {
    pub frame_bytes: usize,
    pub period_bytes: usize,
    pub buffer_bytes: usize,
}

/// The byte sizes of a PCM opened with `bits` per sample, `channels` channels,
/// and periods and buffer of the given frame counts.
pub fn pcm_layout(bits: BitsPerSample, channels: u32, period_frames: usize, buffer_frames: usize) -> (l: PcmLayout)
    requires
        channels * (bits.0 / 8) <= usize::MAX,
        channels * (bits.0 / 8) * period_frames <= usize::MAX,
        channels * (bits.0 / 8) * buffer_frames <= usize::MAX,
    ensures
        l.frame_bytes == channels * (bits.0 / 8),
        l.period_bytes == period_frames * l.frame_bytes,
        l.buffer_bytes == buffer_frames * l.frame_bytes,
{
    let bytes_per_sample = bits.0 as usize / 8;
    let frame_bytes = channels as usize * bytes_per_sample;
    assert(period_frames * frame_bytes <= usize::MAX) by (nonlinear_arith)
        requires
            frame_bytes == channels * bytes_per_sample,
            channels * bytes_per_sample * period_frames <= usize::MAX;
    assert(buffer_frames * frame_bytes <= usize::MAX) by (nonlinear_arith)
        requires
            frame_bytes == channels * bytes_per_sample,
            channels * bytes_per_sample * buffer_frames <= usize::MAX;
    PcmLayout {
        frame_bytes,
        period_bytes: period_frames * frame_bytes,
        buffer_bytes: buffer_frames * frame_bytes,
    }
}

/// The period time asked of the hardware, in microseconds, for a period of
/// `device_period_ms` milliseconds (saturating).
pub fn target_period_us(device_period_ms: u32) -> (us: u32)
    ensures
        us == if device_period_ms * 1000 > u32::MAX { u32::MAX as int } else { device_period_ms * 1000 },
{
    if device_period_ms > u32::MAX / 1000 {
        u32::MAX
    } else {
        device_period_ms * 1000
    }
}

} // verus!

verus! {

// ---------------------------------------------------------------------------
// Hosts and devices.

/// The ALSA host: it lists the playback devices and opens them.
#[derive(Clone, Copy, Debug, PartialEq, Eq, Structural)]
pub struct Host {
    pub high_priority_mode: bool,
}

impl Host {
    pub fn new(high_priority_mode: bool) -> (h: Self)
        ensures
            h.high_priority_mode == high_priority_mode,
    {
        Host { high_priority_mode }
    }
}

/// An ALSA playback device.
pub struct Device {
    pub device_name: String,
    pub friendly_name: String,
    pub is_default: bool,
    pub high_priority_mode: bool,
}

impl Device {
    /// The device of a list entry, opened by `host`.
    pub fn from_entry(entry: AlsaDeviceEntry, host: &Host) -> (d: Self)
        ensures
            d.device_name == entry.device_name,
            d.friendly_name == entry.friendly_name,
            d.is_default == entry.is_default,
            d.high_priority_mode == host.high_priority_mode,
    {
        Device {
            device_name: entry.device_name,
            friendly_name: entry.friendly_name,
            is_default: entry.is_default,
            high_priority_mode: host.high_priority_mode,
        }
    }

    pub fn is_default(&self) -> (b: bool)
        ensures
            b == self.is_default,
    {
        self.is_default
    }

    /// The name shown to the user.
    pub fn name(&self) -> (s: String)
        ensures
            s@ == self.friendly_name@,
    {
        self.friendly_name.clone()
    }

    /// The device's capabilities from what probing found, or every format
    /// when probing failed.
    pub fn get_capabilities(&self, probed: Option<(Vec<SampleRate>, Vec<BitsPerSample>)>) -> (caps: Capabilities)
        ensures
            match probed {
                Some((rates, bits)) => caps.sample_rates@ == rates@ && caps.bits_per_samples@ == bits@,
                None => caps.rates() == all_rates() && caps.bits() == all_bits(),
            },
    {
        match probed {
            Some((sample_rates, bits_per_samples)) => Capabilities { sample_rates, bits_per_samples },
            None => Capabilities::all_possible(),
        }
    }
}

/// `EBUSY` and `EAGAIN` on Linux: another client holds the device.
pub const EBUSY: i32 = 16;
pub const EAGAIN: i32 = 11;

/// A device that is busy is retried after a pause; any other error ends
/// the attempt to open it.
pub fn open_retry_kind(errno: i32) -> (k: RetryKind)
    ensures
        k == if errno == EBUSY || errno == EAGAIN { RetryKind::Backoff } else { RetryKind::Fatal },
{
    if errno == EBUSY || errno == EAGAIN { RetryKind::Backoff } else { RetryKind::Fatal }
}

/// The ring buffer of an ALSA or WASAPI stream: the usual size, and at
/// least four device buffers.
pub fn device_ring_bytes(params: &StreamParams, device_buffer_bytes: usize) -> (n: usize)
    requires
        params.samplerate.0 * frame_bytes_spec(*params) * 250 <= usize::MAX,
        device_buffer_bytes * 4 <= usize::MAX,
    ensures
        n == if ring_bytes_spec(*params) > device_buffer_bytes * 4 { ring_bytes_spec(*params) as int } else { device_buffer_bytes * 4 },
{
    let r = ring_bytes(params);
    let d = device_buffer_bytes * 4;
    if r > d { r } else { d }
}

// ---------------------------------------------------------------------------
// The output thread.

/// What the output thread does about playing and pausing before it looks at
/// the buffers.
#[derive(Clone, Copy, Debug, PartialEq, Eq, Structural)]
pub enum ControlStep {
    /// Playback ended: stop the device and leave.
    Exit,
    /// Pause the device, then sleep.
    PauseDevice,
    /// Still paused: sleep.
    StayPaused,
    /// Resume the device, then move data.
    ResumeDevice,
    /// Move data.
    Run,
}

/// Whether the device itself is paused.
pub struct OutputControl {
    pub hw_paused: bool,
}

impl OutputControl {
    pub fn new() -> (c: Self)
        ensures
            !c.hw_paused,
    {
        OutputControl { hw_paused: false }
    }

    /// Brings the device's pause state in line with the request: once
    /// playback ends the thread leaves; otherwise the device ends up paused
    /// exactly when a pause is asked for.
    pub fn step(&mut self, is_playing: bool, want_paused: bool) -> (s: ControlStep)
        ensures
            s == if !is_playing {
                ControlStep::Exit
            } else if want_paused {
                if old(self).hw_paused { ControlStep::StayPaused } else { ControlStep::PauseDevice }
            } else if old(self).hw_paused {
                ControlStep::ResumeDevice
            } else {
                ControlStep::Run
            },
            s != ControlStep::Exit ==> final(self).hw_paused == want_paused,
            s == ControlStep::Exit ==> final(self).hw_paused == old(self).hw_paused,
    {
        if !is_playing {
            return ControlStep::Exit;
        }
        if want_paused {
            if self.hw_paused {
                ControlStep::StayPaused
            } else {
                self.hw_paused = true;
                ControlStep::PauseDevice
            }
        } else if self.hw_paused {
            self.hw_paused = false;
            ControlStep::ResumeDevice
        } else {
            ControlStep::Run
        }
    }
}

/// What the output thread does with the buffer state it sees.
#[derive(Clone, Copy, Debug, PartialEq, Eq, Structural)]
pub enum DataStep {
    /// Move one period from the ring to the device, then wait for the
    /// device.
    WritePeriod,
    /// The stream ended: move the rest, write a period of silence, drain
    /// the device and leave.
    Drain,
    /// The device is full: wait for it.
    WaitDevice,
    /// The ring is short of data: wait for the decoder.
    WaitData,
}

/// Writes go a whole period at a time, once the device has room for one
/// and the ring holds one; a finished stream is drained; otherwise the
/// thread waits for whichever side is short.
pub fn data_step(writable: usize, available: usize, period_bytes: usize, end_of_stream: bool) -> (s: DataStep)
    ensures
        s == if writable >= period_bytes && available >= period_bytes {
            DataStep::WritePeriod
        } else if end_of_stream {
            DataStep::Drain
        } else if writable == 0 {
            DataStep::WaitDevice
        } else {
            DataStep::WaitData
        },
{
    if writable >= period_bytes && available >= period_bytes {
        DataStep::WritePeriod
    } else if end_of_stream {
        DataStep::Drain
    } else if writable == 0 {
        DataStep::WaitDevice
    } else {
        DataStep::WaitData
    }
}

} // verus!

verus! {

/// The refusal to open a raw `hw:` device whose device node is missing.
pub open spec fn not_present_text(name: Seq<char>, card: nat, dev: nat) -> Seq<char> {
    "alsa: hw device "@ + name + " not present at "@ + device_node_path_spec(card, dev) + " (check connection)"@
}

/// The check made before opening a device: a raw `hw:CARD,DEV` device
/// whose node `/dev/snd/pcmCxDyp` does not exist (`node_exists`) is refused
/// for good, so that an unplugged card is reported as such; any other name
/// passes.
pub fn hw_preflight(device_name: &str, node_exists: bool) -> (r: Result<(), String>)
    ensures
        match card_and_device_of(device_name@) {
            Some((c, d)) => if node_exists {
                r is Ok
            } else {
                r matches Err(m) && m@ == not_present_text(device_name@, (c as u32) as nat, (d as u32) as nat)
            },
            None => r is Ok,
        },
{
    match parse_hw_card_dev(device_name) {
        Some((card, dev)) => {
            if node_exists {
                Ok(())
            } else {
                proof {
                    reveal_strlit("alsa: hw device ");
                    reveal_strlit(" not present at ");
                    reveal_strlit(" (check connection)");
                }
                let mut m = String::from_str("alsa: hw device ");
                m.append(device_name);
                m.append(" not present at ");
                let path = device_node_path(card, dev);
                m.append(path.as_str());
                m.append(" (check connection)");
                Err(m)
            }
        },
        None => Ok(()),
    }
}

/// The message of a permanent ALSA failure: `alsa: PHASE: ERROR`.
pub fn alsa_error_message(phase: &str, error: &str) -> (m: String)
    ensures
        m@ == "alsa: "@ + phase@ + ": "@ + error@,
{
    proof {
        reveal_strlit("alsa: ");
        reveal_strlit(": ");
    }
    let mut m = String::from_str("alsa: ");
    m.append(phase);
    m.append(": ");
    m.append(error);
    m
}

} // verus!
