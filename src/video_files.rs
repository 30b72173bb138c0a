//! Which files the browser counts as videos, by their extension.
use vstd::prelude::*;
use vstd::string::StrSliceExecFns;

verus! {

pub open spec fn is_ascii_upper(c: char) -> bool {
    'A' <= c && c <= 'Z'
}

/// Two characters that are equal once ASCII letters are taken in lower case.
pub open spec fn same_ignoring_case(a: char, b: char) -> bool {
    a == b || (is_ascii_upper(a) && a as u32 + 32 == b as u32) || (is_ascii_upper(b) && b as u32
        + 32 == a as u32)
}

pub open spec fn eq_ignore_ascii_case(a: Seq<char>, b: Seq<char>) -> bool {
    a.len() == b.len() && forall|i: int| 0 <= i < a.len() ==> same_ignoring_case(a[i], b[i])
}

/// The video extensions, in any case.
pub open spec fn is_video_name(e: Seq<char>) -> bool {
    eq_ignore_ascii_case(e, "avi"@) || eq_ignore_ascii_case(e, "flv"@) || eq_ignore_ascii_case(e, "m4p"@)
        || eq_ignore_ascii_case(e, "m4v"@) || eq_ignore_ascii_case(e, "mkv"@) || eq_ignore_ascii_case(
        e,
        "mov"@,
    ) || eq_ignore_ascii_case(e, "mp2"@) || eq_ignore_ascii_case(e, "mp4"@) || eq_ignore_ascii_case(
        e,
        "mpe"@,
    ) || eq_ignore_ascii_case(e, "mpeg"@) || eq_ignore_ascii_case(e, "mpg"@) || eq_ignore_ascii_case(
        e,
        "mpv"@,
    ) || eq_ignore_ascii_case(e, "ogg"@) || eq_ignore_ascii_case(e, "qt"@) || eq_ignore_ascii_case(
        e,
        "swf"@,
    ) || eq_ignore_ascii_case(e, "webm"@) || eq_ignore_ascii_case(e, "wmv"@)
}

fn same_char(a: char, b: char) -> (r: bool)
    ensures
        r == same_ignoring_case(a, b),
{
    let x = a as u32;
    let y = b as u32;
    a == b || ('A' <= a && a <= 'Z' && x + 32 == y) || ('A' <= b && b <= 'Z' && y + 32 == x)
}

fn eq_ignore_case(a: &str, b: &str) -> (r: bool)
    ensures
        r == eq_ignore_ascii_case(a@, b@),
{
    let n = a.unicode_len();
    if n != b.unicode_len() {
        return false;
    }
    let mut i: usize = 0;
    while i < n
        invariant
            n == a@.len(),
            a@.len() == b@.len(),
            i <= n,
            forall|k: int| 0 <= k < i ==> same_ignoring_case(a@[k], b@[k]),
        decreases n - i,
    {
        if !same_char(a.get_char(i), b.get_char(i)) {
            return false;
        }
        i = i + 1;
    }
    true
}

/// Whether a file with extension `ext` (none for a file without one) is a
/// video.
pub fn is_video_extension(ext: Option<&str>) -> (r: bool)
    ensures
        r == (ext matches Some(e) && is_video_name(e@)),
{
    if let Some(e) = ext {
        eq_ignore_case(e, "avi") || eq_ignore_case(e, "flv") || eq_ignore_case(e, "m4p")
            || eq_ignore_case(e, "m4v") || eq_ignore_case(e, "mkv") || eq_ignore_case(e, "mov")
            || eq_ignore_case(e, "mp2") || eq_ignore_case(e, "mp4") || eq_ignore_case(e, "mpe")
            || eq_ignore_case(e, "mpeg") || eq_ignore_case(e, "mpg") || eq_ignore_case(e, "mpv")
            || eq_ignore_case(e, "ogg") || eq_ignore_case(e, "qt") || eq_ignore_case(e, "swf")
            || eq_ignore_case(e, "webm") || eq_ignore_case(e, "wmv")
    } else {
        false
    }
}

} // verus!
