use vstd::prelude::*;
use crate::text::{chars_of, find_str, find_str_in};

verus! {

/// The lower-case form of a string, as `str::to_lowercase` computes it
/// (Unicode case mapping, context-sensitive for the final sigma).
pub uninterp spec fn lowercase(s: Seq<char>) -> Seq<char>;

/// `str::to_lowercase`.
#[verifier::external_body]
fn to_lowercase(s: &str) -> (r: String)
    ensures
        r@ == lowercase(s@),
{
    s.to_lowercase()
}

/// Whether `needle` occurs in `haystack` (`str::contains`).
pub open spec fn contains_str(haystack: Seq<char>, needle: Seq<char>) -> bool {
    find_str(haystack, needle) is Some
}

fn string_contains(haystack: &String, needle: &String) -> (b: bool)
    ensures
        b == contains_str(haystack@, needle@),
{
    let h = chars_of(haystack.as_str());
    let n = chars_of(needle.as_str());
    assert(h@.subrange(0, h@.len() as int) =~= h@);
    find_str_in(&h, 0, h.len(), n.as_slice()).is_some()
}

/// The text a playlist entry is searched by.
pub struct TrackLabel {
    pub title: String,
    pub artist: String,
}

/// Whether a track matches a query: its title or artist contains the query,
/// ignoring case.
pub open spec fn track_matches(t: TrackLabel, query: Seq<char>) -> bool {
    contains_str(lowercase(t.title@), lowercase(query))
        || contains_str(lowercase(t.artist@), lowercase(query))
}

fn matches_query(t: &TrackLabel, lowered_query: &String, query: Ghost<Seq<char>>) -> (b: bool)
    requires
        lowered_query@ == lowercase(query@),
    ensures
        b == track_matches(*t, query@),
{
    let title = to_lowercase(t.title.as_str());
    if string_contains(&title, lowered_query) {
        return true;
    }
    let artist = to_lowercase(t.artist.as_str());
    string_contains(&artist, lowered_query)
}

/// Which tracks match the query.
pub open spec fn match_flags(tracks: Seq<TrackLabel>, query: Seq<char>) -> Seq<bool> {
    tracks.map_values(|t: TrackLabel| track_matches(t, query))
}

/// The first index in `[lo, hi)` whose flag is set.
pub open spec fn first_set(f: Seq<bool>, lo: int, hi: int) -> Option<int>
    decreases hi - lo,
{
    if lo >= hi {
        None
    } else if f[lo] {
        Some(lo)
    } else {
        first_set(f, lo + 1, hi)
    }
}

/// The last index in `[lo, hi)` whose flag is set.
pub open spec fn last_set(f: Seq<bool>, lo: int, hi: int) -> Option<int>
    decreases hi - lo,
{
    if lo >= hi {
        None
    } else if f[hi - 1] {
        Some(hi - 1)
    } else {
        last_set(f, lo, hi - 1)
    }
}

pub open spec fn min_int(a: int, b: int) -> int {
    if a < b { a } else { b }
}

/// The first match of a search (nothing for an empty query).
pub open spec fn search_spec(f: Seq<bool>, query_empty: bool) -> Option<int> {
    if query_empty { None } else { first_set(f, 0, f.len() as int) }
}

/// The next match at or after `start`, wrapping around to the start of the
/// list.
pub open spec fn search_next_spec(f: Seq<bool>, start: int, query_empty: bool) -> Option<int> {
    if query_empty {
        None
    } else {
        match first_set(f, start, f.len() as int) {
            Some(i) => Some(i),
            None => first_set(f, 0, min_int(start, f.len() as int)),
        }
    }
}

/// The previous match before `start`, wrapping around to the end of the list.
pub open spec fn search_prev_spec(f: Seq<bool>, start: int, query_empty: bool) -> Option<int> {
    if query_empty {
        None
    } else {
        match last_set(f, 0, min_int(start, f.len() as int)) {
            Some(i) => Some(i),
            None => last_set(f, start, f.len() as int),
        }
    }
}

fn compute_flags(tracks: &Vec<TrackLabel>, query: &str) -> (f: Vec<bool>)
    ensures
        f@ == match_flags(tracks@, query@),
{
    let lowered = to_lowercase(query);
    let mut f: Vec<bool> = Vec::new();
    let mut i: usize = 0;
    while i < tracks.len()
        invariant
            i <= tracks.len(),
            lowered@ == lowercase(query@),
            f.len() == i,
            forall|j: int| 0 <= j < i ==> f@[j] == track_matches(tracks@[j], query@),
        decreases tracks.len() - i,
    {
        let m = matches_query(&tracks[i], &lowered, Ghost(query@));
        f.push(m);
        i = i + 1;
    }
    assert(f@ =~= match_flags(tracks@, query@));
    f
}

fn find_first_set(f: &Vec<bool>, lo: usize, hi: usize) -> (r: Option<usize>)
    requires
        hi <= f.len(),
    ensures
        match first_set(f@, lo as int, hi as int) {
            Some(i) => r == Some(i as usize),
            None => r is None,
        },
{
    let mut i = lo;
    while i < hi
        invariant
            lo <= i,
            hi <= f.len(),
            first_set(f@, lo as int, hi as int) == first_set(f@, i as int, hi as int),
        decreases hi - i,
    {
        if f[i] {
            return Some(i);
        }
        i = i + 1;
    }
    None
}

fn find_last_set(f: &Vec<bool>, lo: usize, hi: usize) -> (r: Option<usize>)
    requires
        hi <= f.len(),
    ensures
        match last_set(f@, lo as int, hi as int) {
            Some(i) => r == Some(i as usize),
            None => r is None,
        },
{
    let mut i = hi;
    while i > lo
        invariant
            i <= hi <= f.len(),
            last_set(f@, lo as int, hi as int) == last_set(f@, lo as int, i as int),
        decreases i,
    {
        if f[i - 1] {
            return Some(i - 1);
        }
        i = i - 1;
    }
    None
}

/// The selection state of the playlist shown to the user, over `count`
/// tracks.
pub struct Playlist {
    pub selected: Option<usize>,
    pub count: usize,
}

/// The entry after `i`, wrapping to the first after the last.
pub open spec fn next_index(i: int, len: int) -> int {
    if i >= len - 1 { 0 } else { i + 1 }
}

/// The entry before `i`, wrapping to the last before the first.
pub open spec fn previous_index(i: int, len: int) -> int {
    if i == 0 { len - 1 } else { i - 1 }
}

/// The selection after moving down: the next entry, the first when none
/// was selected.
pub open spec fn selected_after_next(sel: Option<usize>, count: usize) -> Option<usize> {
    Some(match sel {
        Some(i) => next_index(i as int, count as int) as usize,
        None => 0usize,
    })
}

/// The selection after moving up: the previous entry, the first when none
/// was selected.
pub open spec fn selected_after_previous(sel: Option<usize>, count: usize) -> Option<usize> {
    Some(match sel {
        Some(i) => previous_index(i as int, count as int) as usize,
        None => 0usize,
    })
}

/// The selection after selecting `index`: it, if it is an entry.
pub open spec fn selected_after_index(sel: Option<usize>, count: usize, index: usize) -> Option<usize> {
    if index < count { Some(index) } else { sel }
}

pub open spec fn as_index(r: Option<int>) -> Option<usize> {
    match r {
        Some(i) => Some(i as usize),
        None => None,
    }
}

/// The first track whose title or artist contains `query` (ignoring case).
pub open spec fn search_result(tracks: Seq<TrackLabel>, query: Seq<char>) -> Option<usize> {
    as_index(search_spec(match_flags(tracks, query), query.len() == 0))
}

/// The next match after `current` (from the first entry without one).
pub open spec fn search_next_result(tracks: Seq<TrackLabel>, current: Option<usize>, query: Seq<char>) -> Option<usize> {
    as_index(search_next_spec(
        match_flags(tracks, query),
        match current { Some(c) => c + 1, None => 0 },
        query.len() == 0,
    ))
}

/// The previous match before `current` (wrapping to the end).
pub open spec fn search_prev_result(tracks: Seq<TrackLabel>, current: Option<usize>, query: Seq<char>) -> Option<usize> {
    as_index(search_prev_spec(
        match_flags(tracks, query),
        match current { Some(c) => c as int, None => 0 },
        query.len() == 0,
    ))
}

impl Playlist {
    /// A playlist of `count` tracks with the first one selected.
    pub fn new(count: usize) -> (p: Self)
        ensures
            p.selected == Some(0usize),
            p.count == count,
    {
        Playlist { selected: Some(0), count }
    }

    pub fn songs_len(&self) -> (n: usize)
        ensures
            n == self.count,
    {
        self.count
    }

    /// Moves the selection down one entry, wrapping to the first.
    pub fn select_next(&mut self)
        requires
            old(self).count > 0 || old(self).selected is None,
        ensures
            final(self).count == old(self).count,
            final(self).selected == selected_after_next(old(self).selected, old(self).count),
    {
        let i = match self.selected {
            Some(i) => if i >= self.count - 1 {
                0
            } else {
                i + 1
            },
            None => 0,
        };
        self.selected = Some(i);
    }

    /// Moves the selection up one entry, wrapping to the last.
    pub fn select_previous(&mut self)
        requires
            old(self).count > 0 || old(self).selected is None,
        ensures
            final(self).count == old(self).count,
            final(self).selected == selected_after_previous(old(self).selected, old(self).count),
    {
        let i = match self.selected {
            Some(i) => if i == 0 {
                self.count - 1
            } else {
                i - 1
            },
            None => 0,
        };
        self.selected = Some(i);
    }

    /// Selects entry `index` if there is one.
    pub fn select_index(&mut self, index: usize)
        ensures
            final(self).count == old(self).count,
            final(self).selected == selected_after_index(old(self).selected, old(self).count, index),
    {
        if index < self.count {
            self.selected = Some(index);
        }
    }

    pub fn selected_index(&self) -> (r: Option<usize>)
        ensures
            r == self.selected,
    {
        self.selected
    }

    /// The first track whose title or artist contains `query`, ignoring case;
    /// nothing for an empty query.
    pub fn search(&self, tracks: &Vec<TrackLabel>, query: &str) -> (r: Option<usize>)
        requires
            tracks@.len() == self.count,
        ensures
            r == search_result(tracks@, query@),
    {
        if query.is_empty() {
            return None;
        }
        let f = compute_flags(tracks, query);
        find_first_set(&f, 0, f.len())
    }

    /// The next matching track after `current_index` (from the first when
    /// there is none), wrapping around; nothing for an empty query or when
    /// nothing matches.
    pub fn search_next(&self, tracks: &Vec<TrackLabel>, current_index: Option<usize>, query: &str) -> (r: Option<usize>)
        requires
            tracks@.len() == self.count,
            query@.len() > 0 ==> current_index != Some(usize::MAX),
        ensures
            r == search_next_result(tracks@, current_index, query@),
    {
        if query.is_empty() {
            return None;
        }
        let f = compute_flags(tracks, query);
        let start = match current_index {
            Some(idx) => idx + 1,
            None => 0,
        };
        let after = if start <= f.len() { find_first_set(&f, start, f.len()) } else { None };
        match after {
            Some(i) => Some(i),
            None => {
                let upper = if start < f.len() { start } else { f.len() };
                find_first_set(&f, 0, upper)
            },
        }
    }

    /// The previous matching track before `current_index` (before the first
    /// entry when there is none), wrapping around to the end.
    pub fn search_prev(&self, tracks: &Vec<TrackLabel>, current_index: Option<usize>, query: &str) -> (r: Option<usize>)
        requires
            tracks@.len() == self.count,
        ensures
            r == search_prev_result(tracks@, current_index, query@),
    {
        if query.is_empty() {
            return None;
        }
        let f = compute_flags(tracks, query);
        let start = match current_index {
            Some(idx) => idx,
            None => 0,
        };
        let upper = if start < f.len() { start } else { f.len() };
        match find_last_set(&f, 0, upper) {
            Some(i) => Some(i),
            None => if start <= f.len() {
                find_last_set(&f, start, f.len())
            } else {
                None
            },
        }
    }
}

} // verus!

verus! {

pub proof fn lemma_first_set(f: Seq<bool>, lo: int, hi: int)
    requires
        0 <= lo,
        hi <= f.len(),
    ensures
        match first_set(f, lo, hi) {
            Some(i) => lo <= i < hi && f[i] && forall|j: int| lo <= j < i ==> !f[j],
            None => forall|j: int| lo <= j < hi ==> !f[j],
        },
    decreases hi - lo,
{
    if lo < hi && !f[lo] {
        lemma_first_set(f, lo + 1, hi);
    }
}

pub proof fn lemma_last_set(f: Seq<bool>, lo: int, hi: int)
    requires
        0 <= lo,
        hi <= f.len(),
    ensures
        match last_set(f, lo, hi) {
            Some(i) => lo <= i < hi && f[i] && forall|j: int| i < j < hi ==> !f[j],
            None => forall|j: int| lo <= j < hi ==> !f[j],
        },
    decreases hi - lo,
{
    if lo < hi && !f[hi - 1] {
        lemma_last_set(f, lo, hi - 1);
    }
}

/// Searching onward from no current entry finds the same track as a fresh
/// search.
pub proof fn lemma_search_next_from_start(f: Seq<bool>, query_empty: bool)
    ensures
        search_next_spec(f, 0, query_empty) == search_spec(f, query_empty),
{
}

/// Searching onward from any position finds a track exactly when some track
/// matches, and what it finds matches.
pub proof fn lemma_search_next_complete(f: Seq<bool>, start: int)
    requires
        0 <= start,
    ensures
        search_next_spec(f, start, false) is Some <==> exists|i: int| 0 <= i < f.len() && f[i],
        search_next_spec(f, start, false) matches Some(i) ==> 0 <= i < f.len() && f[i],
{
    lemma_first_set(f, start, f.len() as int);
    lemma_first_set(f, 0, min_int(start, f.len() as int));
    if exists|i: int| 0 <= i < f.len() && f[i] {
        let i = choose|i: int| 0 <= i < f.len() && f[i];
        if i < start {
            assert(i < min_int(start, f.len() as int));
        }
    }
}

/// Searching backward from any position finds a track exactly when some track
/// matches, and what it finds matches.
pub proof fn lemma_search_prev_complete(f: Seq<bool>, start: int)
    requires
        0 <= start,
    ensures
        search_prev_spec(f, start, false) is Some <==> exists|i: int| 0 <= i < f.len() && f[i],
        search_prev_spec(f, start, false) matches Some(i) ==> 0 <= i < f.len() && f[i],
{
    lemma_last_set(f, 0, min_int(start, f.len() as int));
    lemma_last_set(f, start, f.len() as int);
    if exists|i: int| 0 <= i < f.len() && f[i] {
        let i = choose|i: int| 0 <= i < f.len() && f[i];
        if i < start {
            assert(i < min_int(start, f.len() as int));
        }
    }
}

/// Moving the selection down and then up returns to the entry it started on.
pub proof fn lemma_next_then_previous(i: int, len: int)
    requires
        0 <= i < len,
    ensures
        previous_index(next_index(i, len), len) == i,
        next_index(previous_index(i, len), len) == i,
        0 <= next_index(i, len) < len,
        0 <= previous_index(i, len) < len,
{
}


/// Moving down selects the entry below (the first after the last) and
/// moving up the entry above (the last before the first); with nothing
/// selected either selects the first entry.
pub proof fn lemma_selection_directions(i: usize, count: usize)
    requires
        i < count,
    ensures
        selected_after_next(Some(i), count) == Some(if i + 1 < count { (i + 1) as usize } else { 0usize }),
        selected_after_previous(Some(i), count) == Some(if i > 0 { (i - 1) as usize } else { (count - 1) as usize }),
        selected_after_next(None, count) == Some(0usize),
        selected_after_previous(None, count) == Some(0usize),
{
}

} // verus!
