use vstd::prelude::*;
use crate::audio::Capabilities;
use crate::text::{char_pos, chars_of, decimal, find_char, has_prefix_at, push_char, push_decimal, starts_with};

verus! {

pub open spec fn is_ascii_alpha(c: char) -> bool {
    ('a' <= c && c <= 'z') || ('A' <= c && c <= 'Z')
}

/// The upper-case form of an ASCII letter.
pub open spec fn ascii_upper(c: char) -> char {
    if 'a' <= c && c <= 'z' { (((c as u8) - 32) as u8) as char } else { c }
}

/// `s` with every `/` turned into `\`.
pub open spec fn backslashed(s: Seq<char>) -> Seq<char> {
    s.map_values(|c: char| if c == '/' { '\\' } else { c })
}

/// The Windows form of a WSL path `/mnt/<drive>/<rest>` with a one-letter
/// drive: `<DRIVE>:\<rest>` with backslashes; nothing for other paths.
pub open spec fn windows_form(p: Seq<char>) -> Option<Seq<char>> {
    if starts_with(p, "/mnt/"@) {
        let rest = p.skip(5);
        let k = char_pos(rest, '/');
        if k < rest.len() && k == 1 && is_ascii_alpha(rest[0]) {
            Some(seq![ascii_upper(rest[0]), ':', '\\'] + backslashed(rest.skip(2)))
        } else {
            None
        }
    } else {
        None
    }
}

fn upper_ascii(c: char) -> (u: char)
    requires
        is_ascii_alpha(c),
    ensures
        u == ascii_upper(c),
{
    if 'a' <= c && c <= 'z' {
        let v: u8 = (c as u8) - 32;
        v as char
    } else {
        c
    }
}

/// A path under WSL's `/mnt/<drive>/` in the form Windows programs read;
/// any other path is returned as it is.
pub fn wsl_path_to_windows(path: &str) -> (r: String)
    ensures
        r@ == match windows_form(path@) {
            Some(w) => w,
            None => path@,
        },
{
    proof {
        reveal_strlit("/mnt/");
    }
    let v = chars_of(path);
    let prefix = ['/', 'm', 'n', 't', '/'];
    assert(prefix@ =~= "/mnt/"@);
    assert(v@.subrange(0, v@.len() as int) =~= v@);
    let n = v.len();
    if has_prefix_at(&v, 0, n, &prefix) {
        let k = find_char(&v, 5, n, '/');
        assert(v@.subrange(5, n as int) =~= v@.skip(5));
        if k < n && k - 5 == 1 && (('a' <= v[5] && v[5] <= 'z') || ('A' <= v[5] && v[5] <= 'Z')) {
            let mut out = String::new();
            push_char(&mut out, upper_ascii(v[5]));
            push_char(&mut out, ':');
            push_char(&mut out, '\\');
            let mut i: usize = 7;
            let ghost head = out@;
            while i < n
                invariant
                    7 <= i <= n == v@.len(),
                    out@ == head + backslashed(v@.subrange(7, i as int)),
                decreases n - i,
            {
                let c = v[i];
                push_char(&mut out, if c == '/' { '\\' } else { c });
                assert(backslashed(v@.subrange(7, i + 1)) =~= backslashed(v@.subrange(7, i as int)).push(if c == '/' { '\\' } else { c }));
                i = i + 1;
            }
            assert(v@.skip(5).skip(2) =~= v@.subrange(7, n as int));
            assert(out@ =~= seq![ascii_upper(v@[5]), ':', '\\'] + backslashed(v@.skip(5).skip(2)));
            return out;
        }
    }
    String::from_str(path)
}

// ---------------------------------------------------------------------------
// The device listing of the command line.

/// `-> [i]: name` for the default device, `   [i]: name` for the others.
pub open spec fn device_line(is_default: bool, index: nat, name: Seq<char>) -> Seq<char> {
    (if is_default { "->"@ } else { "  "@ }) + " ["@ + decimal(index) + "]: "@ + name
}

/// The lines listing one device: its line, then its widest sample width and
/// its highest rate when it has any.
pub open spec fn device_listing_spec(is_default: bool, index: nat, name: Seq<char>, bits: Seq<u16>, rates: Seq<u32>) -> Seq<Seq<char>> {
    seq![device_line(is_default, index, name)]
        + (if bits.len() > 0 { seq!["    Max bits per sample: "@ + decimal(bits.last() as nat) + "bits"@] } else { Seq::empty() })
        + (if rates.len() > 0 { seq!["    Max sample rate: "@ + decimal(rates.last() as nat) + "Hz"@] } else { Seq::empty() })
}

pub fn device_listing(is_default: bool, index: usize, name: &str, caps: &Capabilities) -> (lines: Vec<String>)
    ensures
        lines@.map_values(|s: String| s@) == device_listing_spec(is_default, index as nat, name@, caps.bits(), caps.rates()),
{
    proof {
        reveal_strlit("->");
        reveal_strlit("  ");
        reveal_strlit(" [");
        reveal_strlit("]: ");
        reveal_strlit("    Max bits per sample: ");
        reveal_strlit("bits");
        reveal_strlit("    Max sample rate: ");
        reveal_strlit("Hz");
    }
    let mut first = String::from_str(if is_default { "->" } else { "  " });
    first.append(" [");
    push_decimal(&mut first, index as u64);
    first.append("]: ");
    first.append(name);
    let mut lines: Vec<String> = Vec::new();
    lines.push(first);
    let ghost l1 = seq![device_line(is_default, index as nat, name@)];
    assert(lines@.map_values(|s: String| s@) =~= l1);
    let nb = caps.bits_per_samples.len();
    let ghost bits_part: Seq<Seq<char>> = Seq::empty();
    if nb > 0 {
        let mut s = String::from_str("    Max bits per sample: ");
        push_decimal(&mut s, caps.bits_per_samples[nb - 1].0 as u64);
        s.append("bits");
        lines.push(s);
        proof {
            bits_part = seq!["    Max bits per sample: "@ + decimal(caps.bits().last() as nat) + "bits"@];
        }
    }
    assert(lines@.map_values(|s: String| s@) =~= l1 + bits_part);
    let nr = caps.sample_rates.len();
    let ghost rates_part: Seq<Seq<char>> = Seq::empty();
    if nr > 0 {
        let mut s = String::from_str("    Max sample rate: ");
        push_decimal(&mut s, caps.sample_rates[nr - 1].0 as u64);
        s.append("Hz");
        lines.push(s);
        proof {
            rates_part = seq!["    Max sample rate: "@ + decimal(caps.rates().last() as nat) + "Hz"@];
        }
    }
    assert(lines@.map_values(|s: String| s@) =~= l1 + bits_part + rates_part);
    lines
}

} // verus!
