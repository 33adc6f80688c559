use vstd::prelude::*;
use crate::audio::{BitsPerSample, SampleRate};

verus! {

/// The stem of the last component of a path (`Path::file_stem`): the file
/// name without its extension. It depends on the path alone.
pub uninterp spec fn path_file_stem(path: Seq<char>) -> Option<Seq<char>>;

/// `std::path::Path::file_stem`, read back as text. The contract names the
/// result: which part of the path it is follows std's component rules.
#[verifier::external_body]
fn file_stem(path: &str) -> (r: Option<String>)
    ensures
        match r {
            Some(s) => path_file_stem(path@) == Some(s@),
            None => path_file_stem(path@) is None,
        },
{
    std::path::Path::new(path).file_stem().and_then(|s| s.to_str()).map(|s| s.to_string())
}

/// A track of the playlist: where it is, its format, its tags, its length
/// and its cover picture. Entries start unprobed, known by their file name
/// only.
pub struct MusicTrack {
    pub path: String,
    pub sample: SampleRate,
    pub channels: usize,
    pub bits_per_sample: BitsPerSample,
    pub title: String,
    pub artist: String,
    pub album: String,
    /// The length in whole seconds.
    pub duration_secs: u64,
    pub probed: bool,
    pub cover_art: Option<Vec<u8>>,
    pub cover_art_mime: Option<String>,
}

/// What probing a file found; anything the file does not declare is
/// missing.
pub struct ProbedFacts {
    pub sample_rate: Option<u32>,
    pub channels: Option<usize>,
    pub bits_per_sample: Option<u32>,
    pub title: Option<String>,
    pub artist: Option<String>,
    pub album: Option<String>,
    pub duration_secs: u64,
    /// The chosen picture's bytes and media type.
    pub cover: Option<(Vec<u8>, String)>,
}

/// A tag's value, or the placeholder when the file lacks it.
pub open spec fn tag_or(tag: Option<String>, placeholder: Seq<char>) -> Seq<char> {
    match tag {
        Some(t) => t@,
        None => placeholder,
    }
}

fn tag_or_default(tag: Option<String>, placeholder: &str) -> (s: String)
    ensures
        s@ == tag_or(tag, placeholder@),
{
    match tag {
        Some(t) => t,
        None => String::from_str(placeholder),
    }
}

/// Whether `t` is the entry of its path before probing: named after the
/// file (its stem, or `Unknown`), with no format, tags, length or cover.
pub open spec fn is_unprobed_entry(t: MusicTrack) -> bool {
    &&& t.title@ == match path_file_stem(t.path@) {
        Some(s) => s,
        None => "Unknown"@,
    }
    &&& t.sample == SampleRate(0)
    &&& t.channels == 0
    &&& t.bits_per_sample == BitsPerSample(0)
    &&& t.artist@.len() == 0
    &&& t.album@.len() == 0
    &&& t.duration_secs == 0
    &&& !t.probed
    &&& t.cover_art is None
    &&& t.cover_art_mime is None
}

impl MusicTrack {
    /// An unprobed entry named after its file (its stem, or `Unknown`): no
    /// format, no tags, no length.
    pub fn from_path(path: String) -> (t: Self)
        ensures
            t.path@ == path@,
            t.title@ == match path_file_stem(path@) {
                Some(s) => s,
                None => "Unknown"@,
            },
            t.sample == SampleRate(0),
            t.channels == 0,
            t.bits_per_sample == BitsPerSample(0),
            t.artist@.len() == 0,
            t.album@.len() == 0,
            t.duration_secs == 0,
            !t.probed,
            t.cover_art is None,
            t.cover_art_mime is None,
    {
        proof {
            reveal_strlit("Unknown");
        }
        let title = match file_stem(path.as_str()) {
            Some(s) => s,
            None => String::from_str("Unknown"),
        };
        MusicTrack {
            path,
            sample: SampleRate(0),
            channels: 0,
            bits_per_sample: BitsPerSample(0),
            title,
            artist: String::new(),
            album: String::new(),
            duration_secs: 0,
            probed: false,
            cover_art: None,
            cover_art_mime: None,
        }
    }

    /// The probed entry: what the file declares, with 44.1 kHz, two
    /// channels, 16 bits and `Unknown Title`/`Artist`/`Album` for what it
    /// does not; the bit depth is kept in 16 bits.
    pub fn from_probe(path: String, facts: ProbedFacts) -> (t: Self)
        ensures
            t.path@ == path@,
            t.sample == SampleRate(match facts.sample_rate { Some(r) => r, None => 44100u32 }),
            t.channels == match facts.channels { Some(c) => c, None => 2usize },
            t.bits_per_sample == BitsPerSample(match facts.bits_per_sample { Some(b) => b as u16, None => 16u16 }),
            t.title@ == tag_or(facts.title, "Unknown Title"@),
            t.artist@ == tag_or(facts.artist, "Unknown Artist"@),
            t.album@ == tag_or(facts.album, "Unknown Album"@),
            t.duration_secs == facts.duration_secs,
            t.probed,
            match facts.cover {
                Some((data, mime)) => t.cover_art == Some(data) && t.cover_art_mime == Some(mime),
                None => t.cover_art is None && t.cover_art_mime is None,
            },
    {
        proof {
            reveal_strlit("Unknown Title");
            reveal_strlit("Unknown Artist");
            reveal_strlit("Unknown Album");
        }
        let sample = SampleRate(match facts.sample_rate { Some(r) => r, None => 44100 });
        let channels = match facts.channels { Some(c) => c, None => 2 };
        let bits: u16 = match facts.bits_per_sample { Some(b) => b as u16, None => 16 };
        let (cover_art, cover_art_mime) = match facts.cover {
            Some((data, mime)) => (Some(data), Some(mime)),
            None => (None, None),
        };
        MusicTrack {
            path,
            sample,
            channels,
            bits_per_sample: BitsPerSample(bits),
            title: tag_or_default(facts.title, "Unknown Title"),
            artist: tag_or_default(facts.artist, "Unknown Artist"),
            album: tag_or_default(facts.album, "Unknown Album"),
            duration_secs: facts.duration_secs,
            probed: true,
            cover_art,
            cover_art_mime,
        }
    }
}

/// Which embedded picture is the cover, given which pictures are marked
/// as front covers: the first marked one, else the first picture.
pub fn choose_cover(front: &Vec<bool>) -> (r: Option<usize>)
    ensures
        match r {
            Some(i) => i < front@.len() && (front@[i as int] || (i == 0 && forall|j: int| 0 <= j < front@.len() ==> !front@[j]))
                && forall|j: int| 0 <= j < i ==> !front@[j],
            None => front@.len() == 0,
        },
{
    let mut i: usize = 0;
    while i < front.len()
        invariant
            i <= front@.len(),
            forall|j: int| 0 <= j < i ==> !front@[j],
        decreases front@.len() - i,
    {
        if front[i] {
            return Some(i);
        }
        i = i + 1;
    }
    if front.len() > 0 { Some(0) } else { None }
}


/// The file extensions searched for in a music directory.
pub open spec fn audio_extensions() -> Seq<Seq<char>> {
    seq!["flac"@, "mp3"@, "wav"@, "ogg"@, "m4a"@, "aac"@, "opus"@, "mp4"@, "mka"@, "webm"@, "caf"@]
}

/// The glob pattern finding the files of one extension anywhere under
/// `dir`: `DIR/**/*.EXT`.
pub open spec fn scan_pattern(dir: Seq<char>, ext: Seq<char>) -> Seq<char> {
    dir + "/**/*."@ + ext
}

/// One glob pattern per audio extension, in the order of the extension
/// list.
pub fn scan_patterns(dir: &str) -> (patterns: Vec<String>)
    ensures
        patterns@.len() == audio_extensions().len(),
        forall|i: int| 0 <= i < patterns@.len() ==> #[trigger] patterns@[i]@ == scan_pattern(dir@, audio_extensions()[i]),
{
    let exts = ["flac", "mp3", "wav", "ogg", "m4a", "aac", "opus", "mp4", "mka", "webm", "caf"];
    proof {
        reveal_strlit("flac");
        reveal_strlit("mp3");
        reveal_strlit("wav");
        reveal_strlit("ogg");
        reveal_strlit("m4a");
        reveal_strlit("aac");
        reveal_strlit("opus");
        reveal_strlit("mp4");
        reveal_strlit("mka");
        reveal_strlit("webm");
        reveal_strlit("caf");
        reveal_strlit("/**/*.");
        assert(exts@.map_values(|e: &str| e@) =~= audio_extensions());
    }
    let mut patterns: Vec<String> = Vec::new();
    let mut i: usize = 0;
    while i < exts.len()
        invariant
            i <= exts@.len(),
            exts@.map_values(|e: &str| e@) == audio_extensions(),
            patterns@.len() == i,
            forall|j: int| 0 <= j < i ==> #[trigger] patterns@[j]@ == scan_pattern(dir@, audio_extensions()[j]),
        decreases exts@.len() - i,
    {
        let mut p = String::from_str(dir);
        p.append("/**/*.");
        p.append(exts[i]);
        assert(exts@.map_values(|e: &str| e@)[i as int] == exts@[i as int]@);
        patterns.push(p);
        i = i + 1;
    }
    patterns
}

/// `rand::seq::SliceRandom::shuffle` with the thread's generator: puts the
/// paths in a random order. Only that the same paths come back, each as
/// often as before, is claimed; the order is chance.
#[verifier::external_body]
fn shuffle_paths(paths: &mut Vec<String>)
    ensures
        final(paths)@.to_multiset() == old(paths)@.to_multiset(),
{
    rand::seq::SliceRandom::shuffle(paths.as_mut_slice(), &mut rand::rng());
}

/// The playlist of a directory scan: the files found, in a random order,
/// each as its unprobed entry.
pub fn shuffled_playlist(files: Vec<String>) -> (tracks: Vec<MusicTrack>)
    ensures
        tracks@.map_values(|t: MusicTrack| t.path@).to_multiset() == files@.map_values(|s: String| s@).to_multiset(),
        tracks@.len() == files@.len(),
        forall|i: int| 0 <= i < tracks@.len() ==> is_unprobed_entry(#[trigger] tracks@[i]),
{
    let mut paths = files;
    let ghost before = paths@;
    shuffle_paths(&mut paths);
    let ghost after = paths@;
    let mut tracks: Vec<MusicTrack> = Vec::new();
    let mut i: usize = 0;
    while i < paths.len()
        invariant
            i <= paths@.len(),
            paths@ == after,
            tracks@.len() == i,
            forall|j: int| 0 <= j < i ==> (#[trigger] tracks@[j]).path@ == after[j]@,
            forall|j: int| 0 <= j < i ==> is_unprobed_entry(#[trigger] tracks@[j]),
        decreases paths@.len() - i,
    {
        let p = paths[i].clone();
        tracks.push(MusicTrack::from_path(p));
        i = i + 1;
    }
    proof {
        assert(tracks@.map_values(|t: MusicTrack| t.path@) =~= after.map_values(|s: String| s@));
        lemma_map_values_preserves_multiset(before, after);
        broadcast use vstd::seq_lib::group_to_multiset_ensures;
        assert(before.to_multiset().len() == before.len());
        assert(after.to_multiset().len() == after.len());
    }
    tracks
}

/// Two sequences that are permutations of each other stay so when each
/// string is replaced by its text.
proof fn lemma_map_values_preserves_multiset(a: Seq<String>, b: Seq<String>)
    requires
        a.to_multiset() == b.to_multiset(),
    ensures
        a.map_values(|s: String| s@).to_multiset() == b.map_values(|s: String| s@).to_multiset(),
    decreases a.len(),
{
    broadcast use vstd::seq_lib::group_to_multiset_ensures;
    let fa = a.map_values(|s: String| s@);
    let fb = b.map_values(|s: String| s@);
    if a.len() == 0 {
        assert(a.to_multiset().len() == a.len());
        assert(b.to_multiset().len() == b.len());
        assert(b.len() == 0);
        assert(fa =~= Seq::<Seq<char>>::empty());
        assert(fb =~= Seq::<Seq<char>>::empty());
    } else {
        let x = a.last();
        let a1 = a.drop_last();
        assert(a =~= a1.push(x));
        assert(a.to_multiset() == a1.to_multiset().insert(x));
        assert(b.to_multiset().count(x) > 0);
        assert(b.contains(x));
        let i = choose|i: int| 0 <= i < b.len() && b[i] == x;
        let b1 = b.remove(i);
        assert(b1.to_multiset() == b.to_multiset().remove(x));
        assert(b1.to_multiset() =~= a1.to_multiset());
        lemma_map_values_preserves_multiset(a1, b1);
        let fa1 = a1.map_values(|s: String| s@);
        let fb1 = b1.map_values(|s: String| s@);
        assert(fa =~= fa1.push(x@));
        assert(fb.remove(i) =~= fb1);
        assert(fb[i] == x@);
        assert(fb.remove(i).to_multiset() == fb.to_multiset().remove(x@));
        assert(fb.to_multiset().count(x@) > 0) by {
            assert(fb.contains(x@));
        }
        assert(fb.to_multiset() =~= fb.to_multiset().remove(x@).insert(x@));
        assert(fa.to_multiset() == fa1.to_multiset().insert(x@));
    }
}

} // verus!
