use vstd::prelude::*;
use crate::alsa::{hw_device_name, hw_device_name_spec};
use crate::audio::{BitsPerSample, Capabilities, SampleRate, StreamParams, all_bits, all_rates};
use crate::text::{
    chars_of, decimal, has_prefix_at, push_decimal, parse_unsigned, parse_unsigned_in, range_equals, split_ranges,
    split_seq, starts_with, string_from_chars,
};

verus! {

/// The PipeWire backend (sinks are found through the PipeWire registry).
#[derive(Clone, Copy, Debug, PartialEq, Eq, Structural)]
pub struct Host;

/// A command sent to the PipeWire audio thread.
#[derive(Debug, Clone, Copy, PartialEq, Eq, Structural)]
pub enum StreamCommand {
    /// Deactivate (`true`) or reactivate (`false`) the stream.
    Cork(bool),
    /// Disconnect and leave the main loop.
    Quit,
}

/// The sample formats the PipeWire backend negotiates.
#[derive(Debug, Clone, Copy, PartialEq, Eq, Structural)]
pub enum SpaFormat {
    S16LE,
    S24LE,
    /// 32-bit IEEE float, as the decoder writes 32-bit samples.
    F32LE,
}

/// The SPA audio format for a sample width; other widths are refused.
pub fn bits_to_spa_format(bits: BitsPerSample) -> (r: Result<SpaFormat, u16>)
    ensures
        bits.0 == 16 ==> r == Ok::<SpaFormat, u16>(SpaFormat::S16LE),
        bits.0 == 24 ==> r == Ok::<SpaFormat, u16>(SpaFormat::S24LE),
        bits.0 == 32 ==> r == Ok::<SpaFormat, u16>(SpaFormat::F32LE),
        bits.0 != 16 && bits.0 != 24 && bits.0 != 32 ==> r == Err::<SpaFormat, u16>(bits.0),
{
    match bits.0 {
        16 => Ok(SpaFormat::S16LE),
        24 => Ok(SpaFormat::S24LE),
        32 => Ok(SpaFormat::F32LE),
        other => Err(other),
    }
}

/// The bytes of one frame of a stream.
pub open spec fn frame_bytes_spec(p: StreamParams) -> nat {
    ((p.bits_per_sample.0 / 8) * p.channels) as nat
}

pub fn frame_bytes(params: &StreamParams) -> (n: usize)
    ensures
        n == frame_bytes_spec(*params),
{
    assert((params.bits_per_sample.0 / 8) * params.channels <= 8191 * 255) by (nonlinear_arith)
        requires
            params.bits_per_sample.0 / 8 <= 8191,
            params.channels <= 255;
    (params.bits_per_sample.0 / 8) as usize * params.channels as usize
}

/// The ring buffer between decoder and PipeWire holds about 250 ms of audio,
/// and at least 64 KiB.
pub open spec fn ring_bytes_spec(p: StreamParams) -> nat {
    let ms250 = (p.samplerate.0 * frame_bytes_spec(p) * 250) / 1000;
    if ms250 > 65536 { ms250 as nat } else { 65536 }
}

pub fn ring_bytes(params: &StreamParams) -> (n: usize)
    requires
        params.samplerate.0 * frame_bytes_spec(*params) * 250 <= usize::MAX,
    ensures
        n == ring_bytes_spec(*params),
{
    let bpf = frame_bytes(params);
    let rate = params.samplerate.0 as usize;
    assert(rate * bpf <= usize::MAX) by (nonlinear_arith)
        requires
            rate * bpf * 250 <= usize::MAX;
    let ms250 = (rate * bpf * 250) / 1000;
    if ms250 > 65536 {
        ms250
    } else {
        65536
    }
}

/// What one process cycle of the PipeWire stream does with the ring buffer.
#[derive(Debug, Clone, Copy, PartialEq, Eq, Structural)]
pub enum CyclePlan {
    /// Move `bytes` (whole frames) from the ring to the device buffer.
    Read { bytes: usize },
    /// End of stream: move the last `bytes` and pad the buffer with silence.
    ReadTailAndPad { bytes: usize },
    /// End of stream and the ring is empty: output silence and finish.
    FinishWithSilence,
    /// Nothing to play yet: output silence.
    Silence,
}

/// The plan of a process cycle, given the bytes waiting in the ring, the
/// device buffer size, the frame size and whether the stream has ended.
/// Whole frames are read whenever at least one is waiting, so that a
/// sample is never split.
pub fn plan_cycle(available: usize, max_bytes: usize, bytes_per_frame: usize, end_of_stream: bool) -> (p: CyclePlan)
    requires
        bytes_per_frame > 0,
    ensures
        p == plan_cycle_spec(available, max_bytes, bytes_per_frame, end_of_stream),
{
    if available >= bytes_per_frame {
        let raw = if available < max_bytes { available } else { max_bytes };
        assert(raw / bytes_per_frame * bytes_per_frame <= raw) by (nonlinear_arith)
            requires
                bytes_per_frame > 0;
        CyclePlan::Read { bytes: raw / bytes_per_frame * bytes_per_frame }
    } else if end_of_stream {
        if available > 0 {
            CyclePlan::ReadTailAndPad { bytes: if available < max_bytes { available } else { max_bytes } }
        } else {
            CyclePlan::FinishWithSilence
        }
    } else {
        CyclePlan::Silence
    }
}

/// A read planned for a cycle never exceeds what is waiting nor the device
/// buffer, and a regular read is a whole number of frames.
pub proof fn lemma_cycle_read_fits(available: usize, max_bytes: usize, bytes_per_frame: usize, end_of_stream: bool, p: CyclePlan)
    requires
        bytes_per_frame > 0,
        p == plan_cycle_spec(available, max_bytes, bytes_per_frame, end_of_stream),
    ensures
        p matches CyclePlan::Read { bytes } ==> bytes <= available && bytes <= max_bytes && bytes % bytes_per_frame == 0,
        p matches CyclePlan::ReadTailAndPad { bytes } ==> bytes <= available && bytes <= max_bytes,
{
    let raw = if available < max_bytes { available } else { max_bytes };
    assert(raw / bytes_per_frame * bytes_per_frame <= raw && (raw / bytes_per_frame * bytes_per_frame) % bytes_per_frame as int == 0) by (nonlinear_arith)
        requires
            bytes_per_frame > 0;
}

/// The plan of a cycle, as a function.
pub open spec fn plan_cycle_spec(available: usize, max_bytes: usize, bytes_per_frame: usize, end_of_stream: bool) -> CyclePlan {
    let raw = if available < max_bytes { available } else { max_bytes };
    if available >= bytes_per_frame {
        CyclePlan::Read { bytes: (raw / bytes_per_frame * bytes_per_frame) as usize }
    } else if end_of_stream {
        if available > 0 {
            CyclePlan::ReadTailAndPad { bytes: raw }
        } else {
            CyclePlan::FinishWithSilence
        }
    } else {
        CyclePlan::Silence
    }
}

// ---------------------------------------------------------------------------
// Sinks.

pub open spec fn alsa_word() -> Seq<char> {
    seq!['a', 'l', 's', 'a']
}

/// The ALSA card id of a PipeWire `object.path` such as
/// `alsa:acp:DAC:1:playback` (giving `DAC`): the third `:`-separated field of
/// a path of at least four fields whose first is `alsa`.
pub open spec fn card_id_of_object_path(path: Seq<char>) -> Option<Seq<char>> {
    let parts = split_seq(path, ':');
    if parts.len() >= 4 && parts[0] == alsa_word() {
        Some(parts[2])
    } else {
        None
    }
}

/// Extracts the ALSA card id from a PipeWire object path.
pub fn card_id_from_object_path(object_path: &str) -> (r: Option<String>)
    ensures
        match card_id_of_object_path(object_path@) {
            Some(id) => r matches Some(s) && s@ == id,
            None => r is None,
        },
{
    let v = chars_of(object_path);
    let ranges = split_ranges(&v, 0, v.len(), ':');
    assert(v@.subrange(0, v@.len() as int) =~= v@);
    if ranges.len() < 4 {
        return None;
    }
    let word = ['a', 'l', 's', 'a'];
    assert(word@ =~= alsa_word());
    let (a0, b0) = ranges[0];
    if !range_equals(&v, a0, b0, &word) {
        return None;
    }
    let (a2, b2) = ranges[2];
    Some(string_from_chars(&v, a2, b2))
}

pub open spec fn card_word() -> Seq<char> {
    seq!['c', 'a', 'r', 'd']
}

/// The device `hw:N,0` a `/proc/asound/<id>` link target `cardN` leads to.
pub open spec fn alsa_path_of_link_target(target: Seq<char>) -> Option<Seq<char>> {
    if starts_with(target, card_word()) {
        match parse_unsigned(target.subrange(4, target.len() as int), u32::MAX as nat) {
            Some(n) => Some(hw_device_name_spec(n, 0)),
            None => None,
        }
    } else {
        None
    }
}

/// Maps the target of the `/proc/asound/<card id>` link (`cardN`) to the ALSA
/// device that is probed for the sink's capabilities, `hw:N,0`.
pub fn alsa_path_from_link_target(target: &str) -> (r: Option<String>)
    ensures
        match alsa_path_of_link_target(target@) {
            Some(p) => r matches Some(s) && s@ == p,
            None => r is None,
        },
{
    let v = chars_of(target);
    let word = ['c', 'a', 'r', 'd'];
    assert(word@ =~= card_word());
    if !has_prefix_at(&v, 0, v.len(), &word) {
        assert(v@.subrange(0, v@.len() as int) =~= v@);
        return None;
    }
    assert(v@.subrange(0, v@.len() as int) =~= v@);
    match parse_unsigned_in(&v, 4, v.len(), u32::MAX as u64) {
        Some(n) => Some(hw_device_name(n as u32, 0)),
        None => None,
    }
}

pub open spec fn audio_sink_class() -> Seq<char> {
    seq!['A', 'u', 'd', 'i', 'o', '/', 'S', 'i', 'n', 'k']
}

/// Whether a registry node with this `media.class` is an output sink.
pub fn is_audio_sink(media_class: Option<&str>) -> (b: bool)
    ensures
        b == (media_class matches Some(c) && c@ == audio_sink_class()),
{
    match media_class {
        Some(c) => {
            let v = chars_of(c);
            let lit = ['A', 'u', 'd', 'i', 'o', '/', 'S', 'i', 'n', 'k'];
            assert(lit@ =~= audio_sink_class());
            assert(v@.subrange(0, v@.len() as int) =~= v@);
            range_equals(&v, 0, v.len(), &lit)
        },
        None => false,
    }
}

/// The session priority of a sink: its `priority.session` read as a number,
/// else 0.
pub fn parse_priority(priority: Option<&str>) -> (p: u32)
    ensures
        p == match priority {
            Some(s) => match parse_unsigned(s@, u32::MAX as nat) {
                Some(n) => n as u32,
                None => 0u32,
            },
            None => 0u32,
        },
{
    match priority {
        Some(s) => {
            let v = chars_of(s);
            assert(v@.subrange(0, v@.len() as int) =~= v@);
            match parse_unsigned_in(&v, 0, v.len(), u32::MAX as u64) {
                Some(n) => n as u32,
                None => 0,
            }
        },
        None => 0,
    }
}

pub open spec fn unknown_node() -> Seq<char> {
    seq!['u', 'n', 'k', 'n', 'o', 'w', 'n']
}

/// A sink found in the registry.
pub struct SinkInfo {
    pub id: u32,
    pub node_name: String,
    pub description: String,
    pub alsa_path: Option<String>,
    pub priority: u32,
}

/// The name and description of a sink: `node.name` (else `unknown`), and
/// `node.description`, else `node.nick`, else the name.
pub fn sink_labels(node_name: Option<&str>, description: Option<&str>, nick: Option<&str>) -> (r: (String, String))
    ensures
        r.0@ == match node_name { Some(n) => n@, None => unknown_node() },
        r.1@ == match description {
            Some(d) => d@,
            None => match nick { Some(n) => n@, None => r.0@ },
        },
{
    let name = match node_name {
        Some(n) => {
            let v = chars_of(n);
            string_from_chars(&v, 0, v.len())
        },
        None => {
            let lit = vec!['u', 'n', 'k', 'n', 'o', 'w', 'n'];
            assert(lit@ =~= unknown_node());
            string_from_chars(&lit, 0, lit.len())
        },
    };
    proof {
        match node_name {
            Some(n) => { assert(n@.subrange(0, n@.len() as int) =~= n@); },
            None => { assert(unknown_node().subrange(0, 7) =~= unknown_node()); },
        }
    }
    let desc = match description {
        Some(d) => {
            let v = chars_of(d);
            assert(v@.subrange(0, v@.len() as int) =~= v@);
            string_from_chars(&v, 0, v.len())
        },
        None => match nick {
            Some(n) => {
                let v = chars_of(n);
                assert(v@.subrange(0, v@.len() as int) =~= v@);
                string_from_chars(&v, 0, v.len())
            },
            None => name.clone(),
        },
    };
    (name, desc)
}

/// The highest session priority among `priorities`, 0 for none.
pub open spec fn max_priority_spec(priorities: Seq<u32>) -> u32
    decreases priorities.len(),
{
    if priorities.len() == 0 {
        0
    } else {
        let m = max_priority_spec(priorities.drop_last());
        if priorities.last() > m { priorities.last() } else { m }
    }
}

proof fn lemma_max_priority(priorities: Seq<u32>)
    ensures
        forall|i: int| 0 <= i < priorities.len() ==> priorities[i] <= max_priority_spec(priorities),
        priorities.len() > 0 ==> exists|i: int| 0 <= i < priorities.len() && priorities[i] == max_priority_spec(priorities),
    decreases priorities.len(),
{
    if priorities.len() > 0 {
        lemma_max_priority(priorities.drop_last());
        assert forall|i: int| 0 <= i < priorities.len() implies priorities[i] <= max_priority_spec(priorities) by {
            if i < priorities.len() - 1 {
                assert(priorities[i] == priorities.drop_last()[i]);
            }
        }
        if priorities.len() > 1 && priorities.last() <= max_priority_spec(priorities.drop_last()) {
            let j = choose|j: int| 0 <= j < priorities.drop_last().len() && priorities.drop_last()[j] == max_priority_spec(priorities.drop_last());
            assert(priorities[j] == max_priority_spec(priorities));
        } else {
            assert(priorities[priorities.len() - 1] == max_priority_spec(priorities));
        }
    }
}

fn max_priority(priorities: &Vec<u32>) -> (m: u32)
    ensures
        m == max_priority_spec(priorities@),
{
    let mut m: u32 = 0;
    let mut i: usize = 0;
    while i < priorities.len()
        invariant
            i <= priorities.len(),
            m == max_priority_spec(priorities@.take(i as int)),
        decreases priorities.len() - i,
    {
        assert(priorities@.take(i + 1).drop_last() =~= priorities@.take(i as int));
        if priorities[i] > m {
            m = priorities[i];
        }
        i = i + 1;
    }
    assert(priorities@.take(priorities.len() as int) =~= priorities@);
    m
}

/// Which sinks are reported as the default one: those with the highest
/// session priority.
pub fn default_flags(priorities: &Vec<u32>) -> (flags: Vec<bool>)
    ensures
        flags.len() == priorities.len(),
        forall|i: int| 0 <= i < priorities.len() ==> flags@[i] == (priorities@[i] == max_priority_spec(priorities@)),
{
    let m = max_priority(priorities);
    let mut flags: Vec<bool> = Vec::new();
    let mut i: usize = 0;
    while i < priorities.len()
        invariant
            i <= priorities.len(),
            m == max_priority_spec(priorities@),
            flags.len() == i,
            forall|j: int| 0 <= j < i ==> flags@[j] == (priorities@[j] == m),
        decreases priorities.len() - i,
    {
        flags.push(priorities[i] == m);
        i = i + 1;
    }
    flags
}

/// Why no sink could be chosen.
#[derive(Debug, Clone, Copy, PartialEq, Eq, Structural)]
pub enum SinkSelectError {
    /// The requested index is past the end of the list.
    IndexOutOfRange(u32),
    /// No sink was found.
    NoSinks,
}

/// The last of the sinks with the highest priority (what `max_by_key`
/// returns on ties).
pub open spec fn is_last_highest(priorities: Seq<u32>, k: int) -> bool {
    &&& 0 <= k < priorities.len()
    &&& forall|i: int| 0 <= i < priorities.len() ==> priorities[i] <= priorities[k]
    &&& forall|i: int| k < i < priorities.len() ==> priorities[i] < priorities[k]
}

/// The sink opened for the request `id`, and whether it is flagged default:
/// sink `id` (default when its priority is the highest), or, without a
/// request, the last sink of highest priority (always flagged default).
pub fn choose_sink(priorities: &Vec<u32>, id: Option<u32>) -> (r: Result<(usize, bool), SinkSelectError>)
    ensures
        match id {
            Some(i) => if (i as nat) < priorities.len() {
                r == Ok::<(usize, bool), SinkSelectError>((i as usize, priorities@[i as int] == max_priority_spec(priorities@)))
            } else {
                r == Err::<(usize, bool), SinkSelectError>(SinkSelectError::IndexOutOfRange(i))
            },
            None => if priorities.len() > 0 {
                r matches Ok((k, d)) && d && is_last_highest(priorities@, k as int)
            } else {
                r == Err::<(usize, bool), SinkSelectError>(SinkSelectError::NoSinks)
            },
        },
{
    match id {
        Some(i) => {
            if (i as usize) < priorities.len() {
                let m = max_priority(priorities);
                Ok((i as usize, priorities[i as usize] == m))
            } else {
                Err(SinkSelectError::IndexOutOfRange(i))
            }
        },
        None => {
            if priorities.len() == 0 {
                return Err(SinkSelectError::NoSinks);
            }
            let mut best: usize = 0;
            let mut i: usize = 1;
            while i < priorities.len()
                invariant
                    1 <= i <= priorities.len(),
                    best < i,
                    forall|j: int| 0 <= j < i ==> priorities@[j] <= priorities@[best as int],
                    forall|j: int| best < j < i ==> priorities@[j] < priorities@[best as int],
                decreases priorities.len() - i,
            {
                if priorities[i] >= priorities[best] {
                    best = i;
                }
                i = i + 1;
            }
            Ok((best, true))
        },
    }
}

/// The sink chosen without a request has the highest priority, so it is
/// also one of the sinks the device list marks as default.
pub proof fn lemma_chosen_sink_is_listed_default(priorities: Seq<u32>, k: int)
    requires
        is_last_highest(priorities, k),
    ensures
        priorities[k] == max_priority_spec(priorities),
{
    lemma_max_priority(priorities);
    let j = choose|j: int| 0 <= j < priorities.len() && priorities[j] == max_priority_spec(priorities);
    assert(priorities[j] <= priorities[k]);
}

} // verus!

verus! {

/// What a process cycle hands to PipeWire once the planned bytes are read.
#[derive(Debug, Clone, Copy, PartialEq, Eq, Structural)]
pub struct CycleOutput {
    /// Silence fills the buffer from this byte to its end.
    pub silence_from: usize,
    /// The chunk's offset into the buffer.
    pub chunk_offset: u32,
    /// The chunk's stride: one frame.
    pub chunk_stride: i32,
    /// The chunk size reported to PipeWire.
    pub chunk_size: u32,
    /// Whether the decoder is woken: something was taken from the ring.
    pub notify: bool,
    /// The stream is over: the loop quits.
    pub finish: bool,
}

/// The output of a cycle of plan `plan` that took `read` bytes from the
/// ring, as a function.
pub open spec fn cycle_output_spec(plan: CyclePlan, read: usize, max_bytes: usize, bytes_per_frame: usize) -> CycleOutput {
    let (silence_from, size, finish) = match plan {
        CyclePlan::Read { .. } => (max_bytes, read, false),
        CyclePlan::ReadTailAndPad { .. } => (read, max_bytes, false),
        CyclePlan::FinishWithSilence => (0usize, max_bytes, true),
        CyclePlan::Silence => (0usize, max_bytes, false),
    };
    CycleOutput {
        silence_from,
        chunk_offset: 0,
        chunk_stride: bytes_per_frame as i32,
        chunk_size: size as u32,
        notify: read > 0,
        finish,
    }
}

/// A regular read reports what was read and pads nothing; an end-of-stream
/// read pads the rest of the buffer with silence and reports all of it; a
/// silent cycle reports a full buffer of silence, and the last one ends
/// the loop. The chunk starts at the buffer's start with a stride of one
/// frame, and the decoder is woken whenever bytes were taken.
pub fn finish_cycle(plan: CyclePlan, read: usize, max_bytes: usize, bytes_per_frame: usize) -> (o: CycleOutput)
    requires
        read <= max_bytes,
    ensures
        o == cycle_output_spec(plan, read, max_bytes, bytes_per_frame),
{
    let (silence_from, size, finish) = match plan {
        CyclePlan::Read { .. } => (max_bytes, read, false),
        CyclePlan::ReadTailAndPad { .. } => (read, max_bytes, false),
        CyclePlan::FinishWithSilence => (0usize, max_bytes, true),
        CyclePlan::Silence => (0usize, max_bytes, false),
    };
    CycleOutput {
        silence_from,
        chunk_offset: 0,
        chunk_stride: bytes_per_frame as i32,
        chunk_size: size as u32,
        notify: read > 0,
        finish,
    }
}

/// The properties of the playback stream: an audio stream in the music
/// role named `rhap`, with its rate as a hint; a bit-perfect stream also
/// asks for passthrough (no conversion or volume), exclusive use of the
/// sink and the graph clock at its rate.
pub open spec fn stream_properties_spec(rate: u32, exclusive: bool) -> Seq<(Seq<char>, Seq<char>)> {
    seq![
        ("media.type"@, "Audio"@),
        ("media.role"@, "Music"@),
        ("media.category"@, "Playback"@),
        ("node.name"@, "rhap"@),
        ("application.name"@, "rhap"@),
        ("node.rate"@, "1/"@ + decimal(rate as nat)),
    ] + if exclusive {
        seq![
            ("node.passthrough"@, "true"@),
            ("node.exclusive"@, "true"@),
            ("node.force-rate"@, decimal(rate as nat)),
        ]
    } else {
        Seq::empty()
    }
}

fn property(key: &str, value: String) -> (p: (String, String))
    ensures
        p.0@ == key@,
        p.1@ == value@,
{
    (String::from_str(key), value)
}

pub fn stream_properties(rate: u32, exclusive: bool) -> (props: Vec<(String, String)>)
    ensures
        props@.map_values(|p: (String, String)| (p.0@, p.1@)) == stream_properties_spec(rate, exclusive),
{
    proof {
        reveal_strlit("media.type");
        reveal_strlit("Audio");
        reveal_strlit("media.role");
        reveal_strlit("Music");
        reveal_strlit("media.category");
        reveal_strlit("Playback");
        reveal_strlit("node.name");
        reveal_strlit("rhap");
        reveal_strlit("application.name");
        reveal_strlit("node.rate");
        reveal_strlit("node.passthrough");
        reveal_strlit("true");
        reveal_strlit("node.exclusive");
        reveal_strlit("node.force-rate");
    }
    let mut props: Vec<(String, String)> = Vec::new();
    props.push(property("media.type", String::from_str("Audio")));
    props.push(property("media.role", String::from_str("Music")));
    props.push(property("media.category", String::from_str("Playback")));
    props.push(property("node.name", String::from_str("rhap")));
    props.push(property("application.name", String::from_str("rhap")));
    props.push(property("node.rate", node_rate_property(rate)));
    if exclusive {
        props.push(property("node.passthrough", String::from_str("true")));
        props.push(property("node.exclusive", String::from_str("true")));
        let mut r = String::new();
        push_decimal(&mut r, rate as u64);
        assert(r@ =~= decimal(rate as nat));
        props.push(property("node.force-rate", r));
    }
    assert(props@.map_values(|p: (String, String)| (p.0@, p.1@)) =~= stream_properties_spec(rate, exclusive));
    props
}

/// What a command does to the stream: corking deactivates it and
/// uncorking activates it; quitting disconnects it and ends the loop.
/// Returns the new activity, if it changes, and whether the loop ends.
pub fn command_effect(cmd: StreamCommand) -> (r: (Option<bool>, bool))
    ensures
        r == match cmd {
            StreamCommand::Cork(corked) => (Some(!corked), false),
            StreamCommand::Quit => (None::<bool>, true),
        },
{
    match cmd {
        StreamCommand::Cork(corked) => (Some(!corked), false),
        StreamCommand::Quit => (None, true),
    }
}

/// The `node.rate` property of the stream: `1/RATE`.
pub fn node_rate_property(rate: u32) -> (s: String)
    ensures
        s@ == "1/"@ + decimal(rate as nat),
{
    let mut s = String::from_str("1/");
    proof {
        reveal_strlit("1/");
    }
    push_decimal(&mut s, rate as u64);
    s
}

/// The arguments of `pw-metadata` that force the graph clock to `rate`
/// (zero gives the clock back to automatic rate selection).
pub fn clock_force_rate_args(rate: u32) -> (args: Vec<String>)
    ensures
        args@.len() == 5,
        args@[0]@ == "-n"@,
        args@[1]@ == "settings"@,
        args@[2]@ == "0"@,
        args@[3]@ == "clock.force-rate"@,
        args@[4]@ == decimal(rate as nat),
{
    proof {
        reveal_strlit("-n");
        reveal_strlit("settings");
        reveal_strlit("0");
        reveal_strlit("clock.force-rate");
    }
    let mut r = String::new();
    push_decimal(&mut r, rate as u64);
    assert(r@ =~= decimal(rate as nat));
    let mut args = Vec::new();
    args.push(String::from_str("-n"));
    args.push(String::from_str("settings"));
    args.push(String::from_str("0"));
    args.push(String::from_str("clock.force-rate"));
    args.push(r);
    args
}

/// A PipeWire sink used as an output device.
pub struct Device {
    pub node_id: u32,
    pub description: String,
    pub is_default_device: bool,
    /// The ALSA device behind the sink, when it is a local sound card.
    pub alsa_path: Option<String>,
}

impl Device {
    pub fn new(node_id: u32, description: String, is_default_device: bool, alsa_path: Option<String>) -> (d: Self)
        ensures
            d.node_id == node_id,
            d.description == description,
            d.is_default_device == is_default_device,
            d.alsa_path == alsa_path,
    {
        Device { node_id, description, is_default_device, alsa_path }
    }

    pub fn is_default(&self) -> (b: bool)
        ensures
            b == self.is_default_device,
    {
        self.is_default_device
    }

    /// The name shown to the user: the sink's description.
    pub fn name(&self) -> (s: String)
        ensures
            s@ == self.description@,
    {
        self.description.clone()
    }

    /// The sink's capabilities: those probed on its ALSA device when there
    /// is one and probing found some rate and some width; otherwise every
    /// format, since PipeWire converts.
    pub fn get_capabilities(&self, probed: Option<(Vec<SampleRate>, Vec<BitsPerSample>)>) -> (caps: Capabilities)
        ensures
            match probed {
                Some((rates, bits)) if self.alsa_path is Some && rates@.len() > 0 && bits@.len() > 0 =>
                    caps.sample_rates@ == rates@ && caps.bits_per_samples@ == bits@,
                _ => caps.rates() == all_rates() && caps.bits() == all_bits(),
            },
    {
        if self.alsa_path.is_some() {
            match probed {
                Some((rates, bits)) => {
                    if rates.len() > 0 && bits.len() > 0 {
                        return Capabilities { sample_rates: rates, bits_per_samples: bits };
                    }
                },
                None => {},
            }
        }
        Capabilities::all_possible()
    }
}

} // verus!
