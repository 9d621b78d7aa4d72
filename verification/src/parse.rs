use vstd::prelude::*;

use crate::errors::IconError;
use crate::icon::Icon;
use crate::icon::spec_validate;

verus! {

/// The literal prefix every icon filename starts with.
pub open spec fn spec_prefix() -> Seq<char> {
    "apple-touch-icon"@
}

/// The optional literal between the size group and the extension.
pub open spec fn spec_precomposed() -> Seq<char> {
    "-precomposed"@
}

/// The extension the filename must carry.
pub open spec fn spec_png_suffix() -> Seq<char> {
    ".png"@
}

/// `c` is a decimal digit.
pub open spec fn spec_is_digit(c: char) -> bool {
    '0' as u32 <= c as u32 <= '9' as u32
}

/// The value of a decimal digit.
pub open spec fn spec_digit_val(c: char) -> nat
    recommends
        spec_is_digit(c),
{
    (c as u32 - '0' as u32) as nat
}

/// The end of the run of decimal digits starting at `i`: the first position
/// at or after `i` that is past the end of `s` or holds a non-digit.
pub open spec fn spec_digits_end(s: Seq<char>, i: int) -> int
    recommends
        0 <= i <= s.len(),
    decreases s.len() - i when 0 <= i <= s.len()
{
    if i < s.len() && spec_is_digit(s[i]) {
        spec_digits_end(s, i + 1)
    } else {
        i
    }
}

/// The number a run of decimal digits denotes, most significant digit first.
pub open spec fn spec_digits_val(s: Seq<char>) -> nat
    decreases s.len(),
{
    if s.len() == 0 {
        0
    } else {
        spec_digits_val(s.drop_last()) * 10 + spec_digit_val(s.last())
    }
}

/// `pat` occurs in `s` starting at position `i`.
pub open spec fn spec_matches_at(s: Seq<char>, i: int, pat: Seq<char>) -> bool {
    0 <= i && i + pat.len() <= s.len() && s.subrange(i, i + pat.len() as int) == pat
}

/// What the filename grammar accepts, and the size it denotes, as a function
/// of the path: the literal prefix `apple-touch-icon`, an optional
/// `-<digits>x<digits>` group giving width and height (60 each when the group
/// is absent), an optional `-precomposed`, then `.png`. Anything may follow
/// the extension: the grammar is anchored only at the start of the path.
pub open spec fn spec_parse(s: Seq<char>) -> Option<(nat, nat)> {
    if spec_matches_at(s, 0, spec_prefix()) {
        spec_parse_size(s, spec_prefix().len() as int)
    } else {
        None
    }
}

/// The optional `-<digits>x<digits>` group at position `i`. A `-` followed by
/// a digit commits to the group: neither `-precomposed` nor `.png` can start
/// there, so no other reading of the path is lost by committing.
pub open spec fn spec_parse_size(s: Seq<char>, i: int) -> Option<(nat, nat)>
    recommends
        0 <= i <= s.len(),
{
    if i + 1 < s.len() && s[i] == '-' && spec_is_digit(s[i + 1]) {
        let e1 = spec_digits_end(s, i + 1);
        if e1 + 1 < s.len() && s[e1] == 'x' && spec_is_digit(s[e1 + 1]) {
            let e2 = spec_digits_end(s, e1 + 1);
            spec_parse_tail(
                s,
                e2,
                spec_digits_val(s.subrange(i + 1, e1)),
                spec_digits_val(s.subrange(e1 + 1, e2)),
            )
        } else {
            None
        }
    } else {
        spec_parse_tail(s, i, 60, 60)
    }
}

/// The optional `-precomposed` literal and the `.png` that must follow it.
/// Taking `-precomposed` when it is present loses nothing: the alternative
/// continuation starts with `.`, which cannot stand at the same position.
pub open spec fn spec_parse_tail(s: Seq<char>, i: int, w: nat, h: nat) -> Option<(nat, nat)> {
    if spec_matches_at(s, i, spec_precomposed()) {
        if spec_matches_at(s, i + spec_precomposed().len(), spec_png_suffix()) {
            Some((w, h))
        } else {
            None
        }
    } else if spec_matches_at(s, i, spec_png_suffix()) {
        Some((w, h))
    } else {
        None
    }
}

/// `r` reports a path-mismatch carrying exactly `path`.
pub open spec fn is_path_mismatch<T>(r: Result<T, IconError>, path: Seq<char>) -> bool {
    r matches Err(e) && e matches IconError::PathMismatch { path: p } && p@ == path
}

/// `c` is a decimal digit.
fn is_ascii_digit(c: char) -> (r: bool)
    ensures
        r == spec_is_digit(c),
{
    let v = c as u32;
    48 <= v && v <= 57
}

/// `pat` occurs in `s` starting at character position `at`.
fn matches_at(s: &str, at: usize, pat: &str) -> (r: bool)
    requires
        at <= s@.len(),
    ensures
        r == spec_matches_at(s@, at as int, pat@),
{
    let n = s.unicode_len();
    let m = pat.unicode_len();
    if m > n - at {
        return false;
    }
    let mut k: usize = 0;
    while k < m
        invariant
            0 <= k <= m,
            at + m <= n,
            n == s@.len(),
            m == pat@.len(),
            forall|j: int| 0 <= j < k ==> s@[at + j] == pat@[j],
        decreases m - k,
    {
        if s.get_char(at + k) != pat.get_char(k) {
            proof {
                assert(s@.subrange(at as int, at + pat@.len() as int)[k as int] == s@[at + k]);
            }
            return false;
        }
        k += 1;
    }
    proof {
        assert(s@.subrange(at as int, at + pat@.len() as int) =~= pat@);
    }
    true
}

/// Scans the run of decimal digits of `s` starting at `start` and accumulates
/// its value; a value above `u32::MAX` is reported only as such, so the
/// accumulator never overflows no matter how long the run is.
fn scan_number(s: &str, start: usize) -> (r: (usize, u64))
    requires
        start <= s@.len(),
    ensures
        ({
            let e = spec_digits_end(s@, start as int);
            let v = spec_digits_val(s@.subrange(start as int, e));
            &&& r.0 == e
            &&& e <= s@.len()
            &&& v <= u32::MAX ==> r.1 == v
            &&& v > u32::MAX ==> r.1 > u32::MAX
        }),
{
    let n = s.unicode_len();
    let mut i: usize = start;
    let mut acc: u64 = 0;
    loop
        invariant
            start <= i <= n,
            n == s@.len(),
            spec_digits_end(s@, start as int) == spec_digits_end(s@, i as int),
            ({
                let v = spec_digits_val(s@.subrange(start as int, i as int));
                &&& v <= u32::MAX ==> acc == v
                &&& v > u32::MAX ==> acc > u32::MAX
            }),
        ensures
            start <= i <= n,
            spec_digits_end(s@, start as int) == i,
            ({
                let v = spec_digits_val(s@.subrange(start as int, i as int));
                &&& v <= u32::MAX ==> acc == v
                &&& v > u32::MAX ==> acc > u32::MAX
            }),
        decreases n - i,
    {
        if i == n {
            break;
        }
        let c = s.get_char(i);
        let cv = c as u32;
        if cv < 48 || cv > 57 {
            break;
        }
        proof {
            let t = s@.subrange(start as int, i as int + 1);
            assert(t.drop_last() =~= s@.subrange(start as int, i as int));
            assert(t.last() == s@[i as int]);
        }
        let d = (cv - 48) as u64;
        if acc <= 0xFFFF_FFFFu64 {
            acc = acc * 10 + d;
        }
        i += 1;
    }
    (i, acc)
}

/// Parses a request path (leading separator already stripped) against the
/// icon filename grammar. Exactly the paths the grammar accepts whose width
/// and height both fit a `u32` yield an `Icon` with those dimensions (60 by
/// 60 when the size group is absent); every other path is rejected as a path
/// mismatch carrying the path itself.
pub fn parse_icon_path(path: &str) -> (r: Result<Icon, IconError>)
    ensures
        ({
            match spec_parse(path@) {
                Some(dims) => {
                    if dims.0 <= u32::MAX && dims.1 <= u32::MAX {
                        r matches Ok(icon) && icon.width == dims.0 && icon.height == dims.1
                    } else {
                        is_path_mismatch(r, path@)
                    }
                },
                None => is_path_mismatch(r, path@),
            }
        }),
{
    let n = path.unicode_len();
    if !matches_at(path, 0, "apple-touch-icon") {
        return Err(IconError::PathMismatch { path: String::from_str(path) });
    }
    proof {
        reveal_strlit("apple-touch-icon");
    }
    let mut i: usize = 16;
    let mut w: u64 = 60;
    let mut h: u64 = 60;
    if n - i >= 2 && path.get_char(i) == '-' && is_ascii_digit(path.get_char(i + 1)) {
        let (e1, wv) = scan_number(path, i + 1);
        if n - e1 >= 2 && path.get_char(e1) == 'x' && is_ascii_digit(path.get_char(e1 + 1)) {
            let (e2, hv) = scan_number(path, e1 + 1);
            w = wv;
            h = hv;
            i = e2;
        } else {
            return Err(IconError::PathMismatch { path: String::from_str(path) });
        }
    }
    if matches_at(path, i, "-precomposed") {
        proof {
            reveal_strlit("-precomposed");
        }
        i += 12;
    }
    if matches_at(path, i, ".png") {
        if w <= 0xFFFF_FFFFu64 && h <= 0xFFFF_FFFFu64 {
            Ok(Icon { width: w as u32, height: h as u32 })
        } else {
            Err(IconError::PathMismatch { path: String::from_str(path) })
        }
    } else {
        Err(IconError::PathMismatch { path: String::from_str(path) })
    }
}

/// The accepted sizes, end to end: any path the grammar accepts with equal
/// width and height in `[1, 500]` passes validation with exactly that size;
/// any other accepted size is rejected with the specific error of the first
/// failing check (width bound, then height bound, then squareness).
pub proof fn lemma_grammar_and_validation(s: Seq<char>, w: nat, h: nat)
    requires
        spec_parse(s) == Some((w, h)),
        w <= u32::MAX,
        h <= u32::MAX,
    ensures
        ({
            let icon = (Icon { width: w as u32, height: h as u32 });
            &&& (1 <= w <= 500 && w == h) ==> spec_validate(icon) == Ok::<(), IconError>(())
            &&& (w < 1 || w > 500) ==> spec_validate(icon) == Err::<(), IconError>(
                IconError::InvalidWidth,
            )
            &&& (1 <= w <= 500 && (h < 1 || h > 500)) ==> spec_validate(icon) == Err::<
                (),
                IconError,
            >(IconError::InvalidHeight)
            &&& (1 <= w <= 500 && 1 <= h <= 500 && w != h) ==> spec_validate(icon) == Err::<
                (),
                IconError,
            >(IconError::InvalidSize)
        }),
{
}

} // verus!
