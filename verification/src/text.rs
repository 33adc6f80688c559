use vstd::prelude::*;

verus! {

broadcast use vstd::string::group_string_axioms;

/// The characters of `s`, in order.
pub fn chars_of(s: &str) -> (v: Vec<char>)
    ensures
        v@ == s@,
{
    let mut v: Vec<char> = Vec::new();
    for c in it: s.chars()
        invariant
            v@ == it.seq().take(it.index() as int),
    {
        v.push(c);
    }
    v
}

/// Appends one character to a string (`String::push`).
#[verifier::external_body]
pub(crate) fn push_char(s: &mut String, c: char)
    ensures
        final(s)@ == old(s)@.push(c),
{
    s.push(c);
}

/// A string holding exactly the characters `chars[start..end]`.
pub fn string_from_chars(chars: &Vec<char>, start: usize, end: usize) -> (s: String)
    requires
        start <= end <= chars.len(),
    ensures
        s@ == chars@.subrange(start as int, end as int),
{
    let mut s = String::new();
    let mut i = start;
    while i < end
        invariant
            start <= i <= end <= chars.len(),
            s@ == chars@.subrange(start as int, i as int),
        decreases end - i,
    {
        push_char(&mut s, chars[i]);
        assert(chars@.subrange(start as int, i + 1) =~= chars@.subrange(start as int, i as int).push(chars@[i as int]));
        i = i + 1;
    }
    s
}

/// Appends `extra` to `s`.
pub fn push_chars(s: &mut String, extra: &Vec<char>)
    ensures
        final(s)@ == old(s)@ + extra@,
{
    let ghost start = s@;
    let mut i: usize = 0;
    while i < extra.len()
        invariant
            i <= extra.len(),
            s@ == start + extra@.take(i as int),
        decreases extra.len() - i,
    {
        push_char(s, extra[i]);
        assert(extra@.take(i + 1) =~= extra@.take(i as int).push(extra@[i as int]));
        i = i + 1;
    }
    assert(extra@.take(extra.len() as int) =~= extra@);
}

// ---------------------------------------------------------------------------
// Whitespace and trimming, as `char::is_whitespace` and `str::trim` define them.

/// The Unicode `White_Space` property.
pub open spec fn is_whitespace(c: char) -> bool {
    let u = c as u32;
    (0x09 <= u && u <= 0x0d) || u == 0x20 || u == 0x85 || u == 0xa0 || u == 0x1680
        || (0x2000 <= u && u <= 0x200a) || u == 0x2028 || u == 0x2029 || u == 0x202f
        || u == 0x205f || u == 0x3000
}

pub fn char_is_whitespace(c: char) -> (b: bool)
    ensures
        b == is_whitespace(c),
{
    let u = c as u32;
    (0x09 <= u && u <= 0x0d) || u == 0x20 || u == 0x85 || u == 0xa0 || u == 0x1680
        || (0x2000 <= u && u <= 0x200a) || u == 0x2028 || u == 0x2029 || u == 0x202f
        || u == 0x205f || u == 0x3000
}

/// `s` without its leading whitespace.
pub open spec fn trim_start(s: Seq<char>) -> Seq<char>
    decreases s.len(),
{
    if s.len() > 0 && is_whitespace(s[0]) {
        trim_start(s.drop_first())
    } else {
        s
    }
}

/// `s` without its trailing whitespace.
pub open spec fn trim_end(s: Seq<char>) -> Seq<char>
    decreases s.len(),
{
    if s.len() > 0 && is_whitespace(s.last()) {
        trim_end(s.drop_last())
    } else {
        s
    }
}

/// `s` without leading and trailing whitespace (`str::trim`).
pub open spec fn trim(s: Seq<char>) -> Seq<char> {
    trim_end(trim_start(s))
}

/// The bounds of the trimmed part of `v[start..end]`.
pub fn trim_bounds(v: &Vec<char>, start: usize, end: usize) -> (r: (usize, usize))
    requires
        start <= end <= v.len(),
    ensures
        start <= r.0 <= r.1 <= end,
        v@.subrange(r.0 as int, r.1 as int) == trim(v@.subrange(start as int, end as int)),
{
    let mut a = start;
    while a < end && char_is_whitespace(v[a])
        invariant
            start <= a <= end <= v.len(),
            trim_start(v@.subrange(start as int, end as int)) == trim_start(
                v@.subrange(a as int, end as int),
            ),
        decreases end - a,
    {
        assert(v@.subrange(a as int, end as int).drop_first() =~= v@.subrange(a + 1, end as int));
        a = a + 1;
    }
    assert(trim_start(v@.subrange(a as int, end as int)) == v@.subrange(a as int, end as int));
    let mut b = end;
    while b > a && char_is_whitespace(v[b - 1])
        invariant
            start <= a <= b <= end <= v.len(),
            trim(v@.subrange(start as int, end as int)) == trim_end(
                v@.subrange(a as int, b as int),
            ),
        decreases b - a,
    {
        assert(v@.subrange(a as int, b as int).drop_last() =~= v@.subrange(a as int, b - 1));
        b = b - 1;
    }
    (a, b)
}

// ---------------------------------------------------------------------------
// Decimal numbers, as `str::parse` reads them for unsigned integers.

pub open spec fn is_digit(c: char) -> bool {
    '0' <= c && c <= '9'
}

pub open spec fn digit_value(c: char) -> nat {
    (c as u32 - '0' as u32) as nat
}

/// The value of a string of decimal digits.
pub open spec fn decimal_value(s: Seq<char>) -> nat
    decreases s.len(),
{
    if s.len() == 0 {
        0
    } else {
        decimal_value(s.drop_last()) * 10 + digit_value(s.last())
    }
}

pub open spec fn all_digits(s: Seq<char>) -> bool {
    forall|i: int| 0 <= i < s.len() ==> is_digit(#[trigger] s[i])
}

/// The digits an unsigned number is read from: `s` without one leading `+`.
pub open spec fn unsigned_digits(s: Seq<char>) -> Seq<char> {
    if s.len() > 0 && s[0] == '+' {
        s.drop_first()
    } else {
        s
    }
}

/// What `str::parse` gives for an unsigned type whose largest value is `max`:
/// an optional `+`, then one or more decimal digits whose value fits.
pub open spec fn parse_unsigned(s: Seq<char>, max: nat) -> Option<nat> {
    let d = unsigned_digits(s);
    if d.len() > 0 && all_digits(d) && decimal_value(d) <= max {
        Some(decimal_value(d))
    } else {
        None
    }
}

proof fn lemma_decimal_value_grows(s: Seq<char>, t: Seq<char>)
    requires
        all_digits(s + t),
    ensures
        decimal_value(s + t) >= decimal_value(s),
    decreases t.len(),
{
    if t.len() > 0 {
        let st = s + t;
        assert(st.drop_last() =~= s + t.drop_last());
        lemma_decimal_value_grows(s, t.drop_last());
    } else {
        assert(s + t =~= s);
    }
}

/// Reads `v[start..end]` as an unsigned number no larger than `max`.
pub fn parse_unsigned_in(v: &Vec<char>, start: usize, end: usize, max: u64) -> (r: Option<u64>)
    requires
        start <= end <= v.len(),
    ensures
        match parse_unsigned(v@.subrange(start as int, end as int), max as nat) {
            Some(n) => r == Some(n as u64),
            None => r is None,
        },
{
    let ghost s = v@.subrange(start as int, end as int);
    let mut i = start;
    if i < end && v[i] == '+' {
        i = i + 1;
    }
    assert(unsigned_digits(s) =~= v@.subrange(i as int, end as int));
    if i == end {
        return None;
    }
    let first = i;
    let mut value: u64 = 0;
    while i < end
        invariant
            start <= first <= i <= end <= v.len(),
            first < end,
            s == v@.subrange(start as int, end as int),
            unsigned_digits(s) == v@.subrange(first as int, end as int),
            all_digits(v@.subrange(first as int, i as int)),
            value as nat == decimal_value(v@.subrange(first as int, i as int)),
            value <= max,
        decreases end - i,
    {
        let c = v[i];
        if !('0' <= c && c <= '9') {
            assert(!all_digits(unsigned_digits(s))) by {
                assert(unsigned_digits(s)[i - first] == c);
                assert(!is_digit(unsigned_digits(s)[i - first]));
            }
            return None;
        }
        let d = (c as u32 - '0' as u32) as u64;
        let ghost prefix = v@.subrange(first as int, i as int);
        let ghost next = v@.subrange(first as int, i + 1);
        assert(next.drop_last() =~= prefix);
        assert(all_digits(next));
        if d > max || value > (max - d) / 10 {
            // the digits read so far already exceed `max`
            assert(decimal_value(next) > max) by (nonlinear_arith)
                requires
                    decimal_value(next) == decimal_value(prefix) * 10 + d,
                    decimal_value(prefix) == value,
                    d > max || value > (max - d) / 10,
            {
            }
            proof {
                let rest = v@.subrange(i + 1, end as int);
                if all_digits(unsigned_digits(s)) {
                    assert(unsigned_digits(s) =~= next + rest);
                    lemma_decimal_value_grows(next, rest);
                }
            }
            return None;
        }
        assert(value * 10 + d <= max) by (nonlinear_arith)
            requires
                value <= (max - d) / 10,
                d <= max,
        {
        }
        value = value * 10 + d;
        i = i + 1;
    }
    Some(value)
}

// ---------------------------------------------------------------------------
// Decimal formatting.

pub open spec fn digit_char(d: nat) -> char {
    seq!['0', '1', '2', '3', '4', '5', '6', '7', '8', '9'][d as int]
}

/// The decimal representation of `n` (as `{}` prints it).
pub open spec fn decimal(n: nat) -> Seq<char>
    decreases n,
{
    if n < 10 {
        seq![digit_char(n)]
    } else {
        decimal(n / 10).push(digit_char(n % 10))
    }
}

fn digit_to_char(d: u64) -> (c: char)
    requires
        d < 10,
    ensures
        c == digit_char(d as nat),
{
    let digits = ['0', '1', '2', '3', '4', '5', '6', '7', '8', '9'];
    assert(digits@ =~= seq!['0', '1', '2', '3', '4', '5', '6', '7', '8', '9']);
    digits[d as usize]
}

/// Appends the decimal representation of `n` to `s`.
pub fn push_decimal(s: &mut String, n: u64)
    ensures
        final(s)@ == old(s)@ + decimal(n as nat),
    decreases n,
{
    if n >= 10 {
        push_decimal(s, n / 10);
        push_char(s, digit_to_char(n % 10));
        assert(decimal(n as nat) == decimal((n / 10) as nat).push(digit_char((n % 10) as nat)));
    } else {
        push_char(s, digit_to_char(n));
    }
    assert(old(s)@ + decimal(n as nat) =~= final(s)@) by {
        if n >= 10 {
            assert(decimal(n as nat) == decimal((n / 10) as nat).push(digit_char((n % 10) as nat)));
        }
    }
}

} // verus!

verus! {

// ---------------------------------------------------------------------------
// Searching.

/// The position of the first `c` in `s`, or `s.len()` when there is none.
pub open spec fn char_pos(s: Seq<char>, c: char) -> nat
    decreases s.len(),
{
    if s.len() == 0 {
        0
    } else if s[0] == c {
        0
    } else {
        1 + char_pos(s.drop_first(), c)
    }
}

pub proof fn lemma_char_pos_bounds(s: Seq<char>, c: char)
    ensures
        char_pos(s, c) <= s.len(),
        char_pos(s, c) < s.len() ==> s[char_pos(s, c) as int] == c,
        forall|j: int| 0 <= j < char_pos(s, c) ==> s[j] != c,
    decreases s.len(),
{
    if s.len() > 0 && s[0] != c {
        lemma_char_pos_bounds(s.drop_first(), c);
        assert forall|j: int| 0 <= j < char_pos(s, c) implies s[j] != c by {
            if j > 0 {
                assert(s[j] == s.drop_first()[j - 1]);
            }
        }
    }
}

/// The position of the first `c` in `v[start..end]`, counted from `start`.
pub fn find_char(v: &Vec<char>, start: usize, end: usize, c: char) -> (k: usize)
    requires
        start <= end <= v.len(),
    ensures
        start <= k <= end,
        k - start == char_pos(v@.subrange(start as int, end as int), c),
{
    let mut i = start;
    while i < end && v[i] != c
        invariant
            start <= i <= end <= v.len(),
            char_pos(v@.subrange(start as int, end as int), c) == (i - start) + char_pos(
                v@.subrange(i as int, end as int),
                c,
            ),
        decreases end - i,
    {
        assert(v@.subrange(i as int, end as int).drop_first() =~= v@.subrange(i + 1, end as int));
        i = i + 1;
    }
    i
}

/// Whether `s` begins with `p`.
pub open spec fn starts_with(s: Seq<char>, p: Seq<char>) -> bool {
    p.len() <= s.len() && s.subrange(0, p.len() as int) == p
}

/// Whether `v[at..end]` begins with `p`.
pub fn has_prefix_at(v: &Vec<char>, at: usize, end: usize, p: &[char]) -> (b: bool)
    requires
        at <= end <= v.len(),
    ensures
        b == starts_with(v@.subrange(at as int, end as int), p@),
{
    if p.len() > end - at {
        return false;
    }
    let mut i: usize = 0;
    while i < p.len()
        invariant
            at <= end <= v.len(),
            p.len() <= end - at,
            i <= p.len(),
            forall|j: int| 0 <= j < i ==> v@[at + j] == p@[j],
        decreases p.len() - i,
    {
        if v[at + i] != p[i] {
            assert(v@.subrange(at as int, end as int).subrange(0, p@.len() as int)[i as int] != p@[i as int]);
            return false;
        }
        i = i + 1;
    }
    assert(v@.subrange(at as int, end as int).subrange(0, p@.len() as int) =~= p@);
    true
}

/// The position of the first occurrence of the non-empty `p` in `s`.
pub open spec fn find_str(s: Seq<char>, p: Seq<char>) -> Option<nat>
    decreases s.len(),
{
    if s.len() < p.len() {
        None
    } else if s.subrange(0, p.len() as int) == p {
        Some(0)
    } else if s.len() == 0 {
        None
    } else {
        match find_str(s.drop_first(), p) {
            Some(i) => Some(i + 1),
            None => None,
        }
    }
}

pub proof fn lemma_find_str_bounds(s: Seq<char>, p: Seq<char>)
    ensures
        find_str(s, p) matches Some(i) ==> i + p.len() <= s.len(),
    decreases s.len(),
{
    if s.len() >= p.len() && s.subrange(0, p.len() as int) != p && s.len() > 0 {
        lemma_find_str_bounds(s.drop_first(), p);
    }
}

/// The first occurrence of `p` in `v[start..end]`, counted from `start`.
pub fn find_str_in(v: &Vec<char>, start: usize, end: usize, p: &[char]) -> (r: Option<usize>)
    requires
        start <= end <= v.len(),
    ensures
        match find_str(v@.subrange(start as int, end as int), p@) {
            Some(i) => r == Some((start + i) as usize),
            None => r is None,
        },
{
    let mut i = start;
    while i <= end
        invariant
            start <= i <= end + 1,
            end <= v.len(),
            i <= end ==> find_str(v@.subrange(start as int, end as int), p@) == match find_str(
                v@.subrange(i as int, end as int),
                p@,
            ) {
                Some(j) => Some((j + (i - start)) as nat),
                None => None,
            },
            i > end ==> find_str(v@.subrange(start as int, end as int), p@) is None,
        decreases end + 1 - i,
    {
        if has_prefix_at(v, i, end, p) {
            proof {
                lemma_find_str_bounds(v@.subrange(i as int, end as int), p@);
            }
            return Some(i);
        }
        if i == end {
            assert(find_str(v@.subrange(i as int, end as int), p@) is None);
            return None;
        }
        if end - i < p.len() {
            assert(find_str(v@.subrange(i as int, end as int), p@) is None);
            return None;
        }
        assert(v@.subrange(i as int, end as int).drop_first() =~= v@.subrange(i + 1, end as int));
        i = i + 1;
    }
    None
}

} // verus!

verus! {

/// The pieces of `s` between the separators `c` (`str::split`).
pub open spec fn split_seq(s: Seq<char>, c: char) -> Seq<Seq<char>>
    decreases s.len(),
{
    let k = char_pos(s, c);
    if k < s.len() {
        seq![s.subrange(0, k as int)] + split_seq(s.subrange(k as int + 1, s.len() as int), c)
    } else {
        seq![s]
    }
}

/// The bounds, within `v`, of the pieces of `v[start..end]` between the
/// separators `c`.
pub fn split_ranges(v: &Vec<char>, start: usize, end: usize, c: char) -> (r: Vec<(usize, usize)>)
    requires
        start <= end <= v.len(),
    ensures
        r.len() == split_seq(v@.subrange(start as int, end as int), c).len(),
        forall|i: int| 0 <= i < r.len() ==> {
            &&& start <= (#[trigger] r@[i]).0 <= r@[i].1 <= end
            &&& v@.subrange(r@[i].0 as int, r@[i].1 as int) == split_seq(v@.subrange(start as int, end as int), c)[i]
        },
{
    let ghost whole = split_seq(v@.subrange(start as int, end as int), c);
    let mut r: Vec<(usize, usize)> = Vec::new();
    let mut pos = start;
    loop
        invariant
            start <= pos <= end <= v.len(),
            whole == split_seq(v@.subrange(start as int, end as int), c),
            whole == r@.map_values(|p: (usize, usize)| v@.subrange(p.0 as int, p.1 as int)) + split_seq(v@.subrange(pos as int, end as int), c),
            forall|i: int| 0 <= i < r.len() ==> start <= (#[trigger] r@[i]).0 <= r@[i].1 <= end,
        decreases end - pos,
    {
        let k = find_char(v, pos, end, c);
        let ghost rest = v@.subrange(pos as int, end as int);
        let ghost old_r = r@;
        r.push((pos, k));
        assert(rest.subrange(0, (k - pos) as int) =~= v@.subrange(pos as int, k as int));
        if k < end {
            assert(rest.subrange((k - pos) + 1, rest.len() as int) =~= v@.subrange(k + 1, end as int));
            assert(r@.map_values(|p: (usize, usize)| v@.subrange(p.0 as int, p.1 as int)) =~= old_r.map_values(|p: (usize, usize)| v@.subrange(p.0 as int, p.1 as int)).push(v@.subrange(pos as int, k as int)));
            assert(whole =~= r@.map_values(|p: (usize, usize)| v@.subrange(p.0 as int, p.1 as int)) + split_seq(v@.subrange(k + 1, end as int), c));
            pos = k + 1;
        } else {
            assert(r@.map_values(|p: (usize, usize)| v@.subrange(p.0 as int, p.1 as int)) =~= old_r.map_values(|p: (usize, usize)| v@.subrange(p.0 as int, p.1 as int)).push(v@.subrange(pos as int, k as int)));
            assert(whole =~= r@.map_values(|p: (usize, usize)| v@.subrange(p.0 as int, p.1 as int)));
            assert forall|i: int| 0 <= i < r.len() implies v@.subrange((#[trigger] r@[i]).0 as int, r@[i].1 as int) == whole[i] by {
                assert(r@.map_values(|p: (usize, usize)| v@.subrange(p.0 as int, p.1 as int))[i] == v@.subrange(r@[i].0 as int, r@[i].1 as int));
            }
            return r;
        }
    }
}

/// Whether `v[start..end]` is exactly `lit`.
pub fn range_equals(v: &Vec<char>, start: usize, end: usize, lit: &[char]) -> (b: bool)
    requires
        start <= end <= v.len(),
    ensures
        b == (v@.subrange(start as int, end as int) == lit@),
{
    if end - start != lit.len() {
        assert(v@.subrange(start as int, end as int).len() != lit@.len());
        return false;
    }
    let b = has_prefix_at(v, start, end, lit);
    assert(v@.subrange(start as int, end as int).subrange(0, lit@.len() as int) =~= v@.subrange(start as int, end as int));
    b
}


/// Whether two strings hold the same characters.
pub fn str_equals(a: &str, b: &str) -> (r: bool)
    ensures
        r == (a@ == b@),
{
    let x = chars_of(a);
    let y = chars_of(b);
    if x.len() != y.len() {
        return false;
    }
    let mut i: usize = 0;
    while i < x.len()
        invariant
            x@ == a@,
            y@ == b@,
            x.len() == y.len(),
            i <= x.len(),
            forall|j: int| 0 <= j < i ==> x@[j] == y@[j],
        decreases x.len() - i,
    {
        if x[i] != y[i] {
            assert(x@[i as int] != y@[i as int]);
            return false;
        }
        i = i + 1;
    }
    assert(x@ =~= y@);
    true
}

} // verus!
