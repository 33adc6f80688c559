use vstd::prelude::*;
use crate::action::Action;
use crate::keys::{Key, KeyInput};
use crate::text::string_from_chars;

verus! {

/// The number of bytes `c` takes in UTF-8.
pub open spec fn utf8_len(c: char) -> nat {
    let u = c as u32;
    if u < 0x80 { 1 } else if u < 0x800 { 2 } else if u < 0x10000 { 3 } else { 4 }
}

fn char_utf8_len(c: char) -> (n: usize)
    ensures
        n == utf8_len(c),
{
    let u = c as u32;
    if u < 0x80 { 1 } else if u < 0x800 { 2 } else if u < 0x10000 { 3 } else { 4 }
}

/// The UTF-8 length of a string.
pub open spec fn byte_len(s: Seq<char>) -> nat
    decreases s.len(),
{
    if s.len() == 0 { 0 } else { byte_len(s.drop_last()) + utf8_len(s.last()) }
}

/// The index of the character that starts at byte offset `b`, if `b` is a
/// character boundary (the end of the string counts as one).
pub open spec fn char_index_at(s: Seq<char>, b: nat) -> Option<nat>
    decreases s.len(),
{
    if b == 0 {
        Some(0)
    } else if s.len() == 0 {
        None
    } else if b < utf8_len(s[0]) {
        None
    } else {
        match char_index_at(s.drop_first(), (b - utf8_len(s[0])) as nat) {
            Some(k) => Some(k + 1),
            None => None,
        }
    }
}

proof fn lemma_byte_len_first(s: Seq<char>)
    requires
        s.len() > 0,
    ensures
        byte_len(s) == utf8_len(s[0]) + byte_len(s.drop_first()),
    decreases s.len(),
{
    if s.len() > 1 {
        lemma_byte_len_first(s.drop_last());
        assert(s.drop_last().drop_first() =~= s.drop_first().drop_last());
        assert(s.drop_first().last() == s.last());
        assert(byte_len(s.drop_first()) == byte_len(s.drop_first().drop_last()) + utf8_len(s.drop_first().last()));
    } else {
        assert(s.drop_first().len() == 0);
        assert(s.drop_last().len() == 0);
        assert(byte_len(s) == byte_len(s.drop_last()) + utf8_len(s.last()));
    }
}

proof fn lemma_char_index_bounds(s: Seq<char>, b: nat)
    ensures
        char_index_at(s, b) matches Some(k) ==> k <= s.len() && b <= byte_len(s) && (k < s.len() <==> b < byte_len(s)),
    decreases s.len(),
{
    if b != 0 && s.len() > 0 && b >= utf8_len(s[0]) {
        lemma_char_index_bounds(s.drop_first(), (b - utf8_len(s[0])) as nat);
        lemma_byte_len_first(s);
    }
    if b == 0 && s.len() > 0 {
        lemma_byte_len_first(s);
    }
}

/// The character index at byte offset `b` of `v`, if `b` is a boundary.
fn index_at_byte(v: &Vec<char>, b: usize) -> (r: Option<usize>)
    ensures
        match r {
            Some(k) => char_index_at(v@, b as nat) == Some(k as nat),
            None => char_index_at(v@, b as nat) is None,
        },
{
    let mut k: usize = 0;
    let mut rem: usize = b;
    assert(v@.skip(0) =~= v@);
    while rem > 0 && k < v.len() && char_utf8_len(v[k]) <= rem
        invariant
            k <= v.len(),
            rem <= b,
            char_index_at(v@, b as nat) == match char_index_at(v@.skip(k as int), rem as nat) {
                Some(j) => Some((j + k) as nat),
                None => None::<nat>,
            },
        decreases v.len() - k,
    {
        assert(v@.skip(k as int).drop_first() =~= v@.skip(k + 1));
        rem = rem - char_utf8_len(v[k]);
        k = k + 1;
    }
    if rem == 0 {
        Some(k)
    } else {
        None
    }
}

/// The search field: the text typed, the cursor as a byte offset into it, the
/// match of the last search and the last query that found one.
pub struct SearchWidget {
    pub input: Vec<char>,
    pub cursor_position: usize,
    pub search_result_index: Option<usize>,
    pub last_query: String,
}

/// The text of the field with `c` inserted at the character starting at byte
/// `cursor`.
pub open spec fn inserted(s: Seq<char>, cursor: nat, c: char) -> Seq<char> {
    s.insert(char_index_at(s, cursor).unwrap() as int, c)
}

/// The text of the field with the character starting at byte `b` removed.
pub open spec fn removed(s: Seq<char>, b: nat) -> Seq<char> {
    s.remove(char_index_at(s, b).unwrap() as int)
}

impl SearchWidget {
    pub fn new() -> (w: Self)
        ensures
            w.input@ == Seq::<char>::empty(),
            w.cursor_position == 0,
            w.search_result_index is None,
            w.last_query@ == Seq::<char>::empty(),
    {
        SearchWidget {
            input: Vec::new(),
            cursor_position: 0,
            search_result_index: None,
            last_query: String::new(),
        }
    }

    /// Types `c` at the cursor and moves the cursor one byte on. The cursor
    /// must lie on a character boundary.
    pub fn handle_input(&mut self, c: char)
        requires
            char_index_at(old(self).input@, old(self).cursor_position as nat) is Some,
            old(self).cursor_position < usize::MAX,
        ensures
            final(self).input@ == inserted(old(self).input@, old(self).cursor_position as nat, c),
            final(self).cursor_position == old(self).cursor_position + 1,
            final(self).search_result_index == old(self).search_result_index,
            final(self).last_query == old(self).last_query,
    {
        proof {
            lemma_char_index_bounds(self.input@, self.cursor_position as nat);
        }
        let k = match index_at_byte(&self.input, self.cursor_position) {
            Some(k) => k,
            None => return,
        };
        let ghost before = self.input@;
        assert(char_index_at(before, self.cursor_position as nat) == Some(k as nat));
        self.input.insert(k, c);
        assert(self.input@ == before.insert(k as int, c));
        self.cursor_position = self.cursor_position + 1;
    }

    /// Deletes the character before the cursor and moves the cursor back one
    /// byte. The byte before the cursor must start a character.
    pub fn handle_backspace(&mut self)
        requires
            old(self).cursor_position > 0 ==> char_index_at(old(self).input@, (old(self).cursor_position - 1) as nat) is Some
                && old(self).cursor_position - 1 < byte_len(old(self).input@),
        ensures
            old(self).cursor_position > 0 ==> final(self).input@ == removed(old(self).input@, (old(self).cursor_position - 1) as nat)
                && final(self).cursor_position == old(self).cursor_position - 1,
            old(self).cursor_position == 0 ==> final(self).input@ == old(self).input@
                && final(self).cursor_position == 0,
            final(self).search_result_index == old(self).search_result_index,
            final(self).last_query == old(self).last_query,
    {
        if self.cursor_position > 0 {
            self.cursor_position = self.cursor_position - 1;
            proof {
                lemma_char_index_bounds(self.input@, self.cursor_position as nat);
            }
            let k = match index_at_byte(&self.input, self.cursor_position) {
                Some(k) => k,
                None => return,
            };
            self.input.remove(k);
        }
    }

    /// Deletes the character at the cursor, if the cursor is not at the end.
    pub fn handle_delete(&mut self)
        requires
            old(self).cursor_position < byte_len(old(self).input@) ==> char_index_at(old(self).input@, old(self).cursor_position as nat) is Some,
            byte_len(old(self).input@) < usize::MAX,
        ensures
            old(self).cursor_position < byte_len(old(self).input@) ==> final(self).input@ == removed(old(self).input@, old(self).cursor_position as nat),
            old(self).cursor_position >= byte_len(old(self).input@) ==> final(self).input@ == old(self).input@,
            final(self).cursor_position == old(self).cursor_position,
            final(self).search_result_index == old(self).search_result_index,
            final(self).last_query == old(self).last_query,
    {
        if self.cursor_position < self.byte_length() {
            proof {
                lemma_char_index_bounds(self.input@, self.cursor_position as nat);
            }
            let k = match index_at_byte(&self.input, self.cursor_position) {
                Some(k) => k,
                None => return,
            };
            let ghost before = self.input@;
            assert(char_index_at(before, self.cursor_position as nat) == Some(k as nat));
            self.input.remove(k);
            assert(self.input@ == before.remove(k as int));
        }
    }

    fn byte_length(&self) -> (n: usize)
        ensures
            n as nat == byte_len(self.input@) || (byte_len(self.input@) > usize::MAX && n == usize::MAX),
    {
        let mut n: usize = 0;
        let mut i: usize = 0;
        while i < self.input.len()
            invariant
                i <= self.input.len(),
                n as nat == byte_len(self.input@.take(i as int)) || (byte_len(self.input@.take(i as int)) > usize::MAX && n == usize::MAX),
            decreases self.input.len() - i,
        {
            assert(self.input@.take(i + 1).drop_last() =~= self.input@.take(i as int));
            let l = char_utf8_len(self.input[i]);
            if n > usize::MAX - l {
                n = usize::MAX;
            } else {
                n = n + l;
            }
            i = i + 1;
        }
        assert(self.input@.take(self.input.len() as int) =~= self.input@);
        n
    }

    /// Moves the cursor one byte left, unless it is at the start.
    pub fn move_cursor_left(&mut self)
        ensures
            final(self).cursor_position == if old(self).cursor_position > 0 { (old(self).cursor_position - 1) as usize } else { 0 },
            final(self).input == old(self).input,
            final(self).search_result_index == old(self).search_result_index,
            final(self).last_query == old(self).last_query,
    {
        if self.cursor_position > 0 {
            self.cursor_position = self.cursor_position - 1;
        }
    }

    /// Moves the cursor one byte right, unless it is at the end.
    pub fn move_cursor_right(&mut self)
        requires
            byte_len(old(self).input@) < usize::MAX,
        ensures
            final(self).cursor_position == if (old(self).cursor_position as nat) < byte_len(old(self).input@) {
                (old(self).cursor_position + 1) as usize
            } else {
                old(self).cursor_position
            },
            final(self).input == old(self).input,
            final(self).search_result_index == old(self).search_result_index,
            final(self).last_query == old(self).last_query,
    {
        if self.cursor_position < self.byte_length() {
            self.cursor_position = self.cursor_position + 1;
        }
    }

    /// Empties the field and forgets the last match (the last query is kept).
    pub fn clear(&mut self)
        ensures
            final(self).input@ == Seq::<char>::empty(),
            final(self).cursor_position == 0,
            final(self).search_result_index is None,
            final(self).last_query == old(self).last_query,
    {
        self.input.clear();
        self.cursor_position = 0;
        self.search_result_index = None;
    }

    /// Records the result of a search; a search that found a track makes the
    /// current text the last query.
    pub fn set_search_result(&mut self, index: Option<usize>)
        ensures
            final(self).search_result_index == index,
            index is Some ==> final(self).last_query@ == old(self).input@,
            index is None ==> final(self).last_query == old(self).last_query,
            final(self).input == old(self).input,
            final(self).cursor_position == old(self).cursor_position,
    {
        self.search_result_index = index;
        if index.is_some() {
            self.last_query = string_from_chars(&self.input, 0, self.input.len());
            assert(self.input@.subrange(0, self.input@.len() as int) =~= self.input@);
        }
    }

    pub fn last_query(&self) -> (q: &str)
        ensures
            q@ == self.last_query@,
    {
        self.last_query.as_str()
    }

    /// The text of the field.
    pub fn text(&self) -> (s: String)
        ensures
            s@ == self.input@,
    {
        assert(self.input@.subrange(0, self.input@.len() as int) =~= self.input@);
        string_from_chars(&self.input, 0, self.input.len())
    }

    /// Whether the edit that `k` asks for is defined on the current text:
    /// typing and deleting need the cursor on a character boundary.
    pub open spec fn key_accepted(&self, k: KeyInput) -> bool {
        match k.key {
            Key::Char(c) => (k.ctrl && (c == 'n' || c == 'p')) || (
                char_index_at(self.input@, self.cursor_position as nat) is Some
                && self.cursor_position < usize::MAX),
            Key::Backspace => self.cursor_position > 0 ==> char_index_at(self.input@, (self.cursor_position - 1) as nat) is Some
                && self.cursor_position - 1 < byte_len(self.input@),
            Key::Delete => byte_len(self.input@) < usize::MAX && (self.cursor_position < byte_len(self.input@)
                ==> char_index_at(self.input@, self.cursor_position as nat) is Some),
            Key::Right => byte_len(self.input@) < usize::MAX,
            _ => true,
        }
    }

    /// Whether `key_accepted` holds: callers test it before handing a key
    /// to `handle_key_event`.
    pub fn edit_allowed(&self, k: KeyInput) -> (b: bool)
        ensures
            b == self.key_accepted(k),
    {
        match k.key {
            Key::Char(c) => {
                if k.ctrl && (c == 'n' || c == 'p') {
                    true
                } else {
                    index_at_byte(&self.input, self.cursor_position).is_some() && self.cursor_position < usize::MAX
                }
            },
            Key::Backspace => {
                if self.cursor_position == 0 {
                    true
                } else {
                    let n = self.byte_length();
                    index_at_byte(&self.input, self.cursor_position - 1).is_some() && self.cursor_position - 1 < n
                }
            },
            Key::Delete => {
                let n = self.byte_length();
                n < usize::MAX && (self.cursor_position >= n || index_at_byte(&self.input, self.cursor_position).is_some())
            },
            Key::Right => self.byte_length() < usize::MAX,
            _ => true,
        }
    }

    /// The search field's key bindings: Esc closes the search; Enter commits
    /// the last match and closes it; Backspace, Delete and characters edit
    /// the text and ask for a search of the new text; Left and Right move the
    /// cursor; Control-N and Control-P are ignored here, as is any other key.
    pub fn handle_key_event(&mut self, k: KeyInput) -> (a: Action)
        requires
            old(self).key_accepted(k),
        ensures
            match k.key {
                Key::Esc => a == Action::PopLayer && *final(self) == *old(self),
                Key::Enter => (a matches Action::Batch(v) && v@.len() == 2
                    && v@[0] == Action::CommitSearch(old(self).search_result_index)
                    && v@[1] == Action::PopLayer) && *final(self) == *old(self),
                Key::Backspace | Key::Delete => a matches Action::SearchQuery(q) && q@ == final(self).input@,
                Key::Left | Key::Right => a == Action::NoOp,
                Key::Char(c) => if k.ctrl && (c == 'n' || c == 'p') {
                    a == Action::NoOp && *final(self) == *old(self)
                } else {
                    (a matches Action::SearchQuery(q) && q@ == final(self).input@)
                    && final(self).input@ == inserted(old(self).input@, old(self).cursor_position as nat, c)
                    && final(self).cursor_position == old(self).cursor_position + 1
                },
                _ => a == Action::NoOp && *final(self) == *old(self),
            },
            k.key == Key::Backspace ==> {
                &&& old(self).cursor_position > 0 ==> final(self).input@ == removed(old(self).input@, (old(self).cursor_position - 1) as nat)
                    && final(self).cursor_position == old(self).cursor_position - 1
                &&& old(self).cursor_position == 0 ==> final(self).input@ == old(self).input@ && final(self).cursor_position == 0
            },
            k.key == Key::Delete ==> {
                &&& old(self).cursor_position < byte_len(old(self).input@) ==> final(self).input@ == removed(old(self).input@, old(self).cursor_position as nat)
                &&& old(self).cursor_position >= byte_len(old(self).input@) ==> final(self).input@ == old(self).input@
                &&& final(self).cursor_position == old(self).cursor_position
            },
            k.key == Key::Left ==> final(self).input == old(self).input
                && final(self).cursor_position == if old(self).cursor_position > 0 { (old(self).cursor_position - 1) as usize } else { 0 },
            k.key == Key::Right ==> final(self).input == old(self).input
                && final(self).cursor_position == if (old(self).cursor_position as nat) < byte_len(old(self).input@) {
                    (old(self).cursor_position + 1) as usize
                } else {
                    old(self).cursor_position
                },
            final(self).search_result_index == old(self).search_result_index,
            final(self).last_query == old(self).last_query,
    {
        match k.key {
            Key::Esc => Action::PopLayer,
            Key::Enter => Action::Batch(vec![Action::CommitSearch(self.search_result_index), Action::PopLayer]),
            Key::Backspace => {
                self.handle_backspace();
                Action::SearchQuery(self.text())
            },
            Key::Delete => {
                self.handle_delete();
                Action::SearchQuery(self.text())
            },
            Key::Left => {
                self.move_cursor_left();
                Action::NoOp
            },
            Key::Right => {
                self.move_cursor_right();
                Action::NoOp
            },
            Key::Char(c) => {
                if k.ctrl && (c == 'n' || c == 'p') {
                    Action::NoOp
                } else {
                    self.handle_input(c);
                    Action::SearchQuery(self.text())
                }
            },
            _ => Action::NoOp,
        }
    }
}


proof fn lemma_char_index_after_insert(s: Seq<char>, b: nat, k: nat, c: char)
    requires
        char_index_at(s, b) == Some(k),
    ensures
        char_index_at(s.insert(k as int, c), b) == Some(k),
    decreases s.len(),
{
    lemma_char_index_bounds(s, b);
    if b != 0 {
        let t = s.insert(k as int, c);
        let l0 = utf8_len(s[0]);
        assert(k >= 1);
        assert(t[0] == s[0]);
        assert(t.drop_first() =~= s.drop_first().insert(k - 1, c));
        lemma_char_index_after_insert(s.drop_first(), (b - l0) as nat, (k - 1) as nat, c);
    }
}

proof fn lemma_byte_len_insert(s: Seq<char>, k: int, c: char)
    requires
        0 <= k <= s.len(),
    ensures
        byte_len(s.insert(k, c)) == byte_len(s) + utf8_len(c),
    decreases s.len(),
{
    let t = s.insert(k, c);
    lemma_byte_len_first(t);
    if k == 0 {
        assert(t.drop_first() =~= s);
    } else {
        lemma_byte_len_first(s);
        assert(t[0] == s[0]);
        assert(t.drop_first() =~= s.drop_first().insert(k - 1, c));
        lemma_byte_len_insert(s.drop_first(), k - 1, c);
    }
}

/// Typing a character and deleting it again with Backspace restores the
/// text: the inserted character ends just after the old cursor, the
/// Backspace is allowed there, and it removes exactly that character.
pub proof fn lemma_type_then_backspace(s: Seq<char>, cursor: nat, c: char)
    requires
        char_index_at(s, cursor) is Some,
    ensures
        char_index_at(inserted(s, cursor, c), cursor) is Some,
        cursor < byte_len(inserted(s, cursor, c)),
        removed(inserted(s, cursor, c), cursor) == s,
{
    let k = char_index_at(s, cursor).unwrap();
    lemma_char_index_bounds(s, cursor);
    lemma_char_index_after_insert(s, cursor, k, c);
    lemma_byte_len_insert(s, k as int, c);
    assert(s.insert(k as int, c).remove(k as int) =~= s);
}


/// Whether every character of `s` is ASCII (one byte in UTF-8).
pub open spec fn all_ascii(s: Seq<char>) -> bool {
    forall|i: int| 0 <= i < s.len() ==> (s[i] as u32) < 0x80
}

/// In ASCII text bytes and characters coincide: every byte offset up to
/// the end is a character boundary, at the same index.
pub proof fn lemma_ascii_boundaries(s: Seq<char>, b: nat)
    requires
        all_ascii(s),
        b <= s.len(),
    ensures
        char_index_at(s, b) == Some(b),
        byte_len(s) == s.len(),
    decreases s.len(),
{
    if s.len() > 0 {
        lemma_byte_len_first(s);
        assert(all_ascii(s.drop_first()));
        lemma_ascii_boundaries(s.drop_first(), 0);
        if b > 0 {
            lemma_ascii_boundaries(s.drop_first(), (b - 1) as nat);
        }
    }
}

/// A search field holding ASCII text, with the cursor inside it, accepts
/// every key.
pub proof fn lemma_ascii_field_accepts_keys(w: SearchWidget, k: KeyInput)
    requires
        all_ascii(w.input@),
        w.cursor_position <= w.input@.len(),
        w.input@.len() < usize::MAX,
    ensures
        w.key_accepted(k),
{
    lemma_ascii_boundaries(w.input@, w.cursor_position as nat);
    if w.cursor_position > 0 {
        lemma_ascii_boundaries(w.input@, (w.cursor_position - 1) as nat);
    }
}


/// In an ASCII field with the cursor inside it, typing a character is
/// allowed, the cursor then still lies inside the text, Backspace is
/// allowed there, and it gives back the text and cursor from before.
pub proof fn lemma_ascii_type_then_backspace(s: Seq<char>, cursor: nat, c: char)
    requires
        all_ascii(s),
        cursor <= s.len(),
    ensures
        char_index_at(s, cursor) is Some,
        cursor + 1 <= inserted(s, cursor, c).len(),
        char_index_at(inserted(s, cursor, c), cursor) is Some,
        cursor < byte_len(inserted(s, cursor, c)),
        removed(inserted(s, cursor, c), cursor) == s,
{
    lemma_ascii_boundaries(s, cursor);
    lemma_type_then_backspace(s, cursor, c);
}


/// In ASCII text the cursor, counted in bytes, stays within the text under
/// every edit the field makes: typing moves it past the new character,
/// Backspace and Left back by one, Delete keeps it, Right moves it on only
/// before the end.
pub proof fn lemma_ascii_cursor_stays_inside(s: Seq<char>, cursor: nat, c: char)
    requires
        all_ascii(s),
        cursor <= s.len(),
    ensures
        cursor + 1 <= inserted(s, cursor, c).len(),
        cursor > 0 ==> cursor - 1 <= removed(s, (cursor - 1) as nat).len(),
        cursor < s.len() ==> cursor <= removed(s, cursor).len(),
        cursor < byte_len(s) ==> cursor + 1 <= s.len(),
{
    lemma_ascii_boundaries(s, cursor);
    if cursor > 0 {
        lemma_ascii_boundaries(s, (cursor - 1) as nat);
    }
}

} // verus!
