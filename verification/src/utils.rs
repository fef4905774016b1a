//! Utility functions: path normalization, filename generation, and file
//! extension validation.

use vstd::prelude::*;
use vstd::string::{StrSliceExecFns, StringExecFns};

use crate::text::push_char;

verus! {

/// A path with every backslash replaced by a forward slash.
pub open spec fn normalized(s: Seq<char>) -> Seq<char> {
    s.map_values(|c: char| if c == '\\' { '/' } else { c })
}

/// Normalizes a path to use forward slashes.
pub fn normalize_path(path: &str) -> (r: String)
    ensures
        r@ == normalized(path@),
{
    let n = path.unicode_len();
    let mut r = String::new();
    let mut i: usize = 0;
    while i < n
        invariant
            i <= n,
            n == path@.len(),
            r@ == normalized(path@.subrange(0, i as int)),
        decreases n - i,
    {
        let c = path.get_char(i);
        let out = if c == '\\' {
            '/'
        } else {
            c
        };
        push_char(&mut r, out);
        proof {
            assert(r@ =~= normalized(path@.subrange(0, i + 1)));
        }
        i = i + 1;
    }
    proof {
        assert(path@.subrange(0, n as int) =~= path@);
    }
    r
}

/// The index of the last occurrence of `c` in the sequence, if any.
pub open spec fn last_index_of(s: Seq<char>, c: char) -> Option<int>
    decreases s.len(),
{
    if s.len() == 0 {
        None
    } else if s[s.len() - 1] == c {
        Some(s.len() - 1)
    } else {
        last_index_of(s.drop_last(), c)
    }
}

/// A found last index lies in range and carries the sought character.
pub proof fn lemma_last_index_range(s: Seq<char>, c: char)
    ensures
        match last_index_of(s, c) {
            Some(k) => 0 <= k < s.len() && s[k] == c,
            None => true,
        },
    decreases s.len(),
{
    if s.len() > 0 && s[s.len() - 1] != c {
        lemma_last_index_range(s.drop_last(), c);
    }
}

proof fn lemma_last_index_at(s: Seq<char>, c: char, d: int)
    requires
        0 <= d < s.len(),
        s[d] == c,
        forall|j: int| d < j < s.len() ==> s[j] != c,
    ensures
        last_index_of(s, c) == Some(d),
    decreases s.len(),
{
    if d < s.len() - 1 {
        lemma_last_index_at(s.drop_last(), c, d);
    }
}

proof fn lemma_last_index_none(s: Seq<char>, c: char)
    requires
        forall|j: int| 0 <= j < s.len() ==> s[j] != c,
    ensures
        last_index_of(s, c) is None,
    decreases s.len(),
{
    if s.len() > 0 {
        lemma_last_index_none(s.drop_last(), c);
    }
}

/// Whether a path segment is the current-directory marker, a single dot.
pub open spec fn seg_is_cur_dir(seg: Seq<char>) -> bool {
    seg.len() == 1 && seg[0] == '.'
}

/// Whether a path segment is the parent-directory marker, two dots.
pub open spec fn seg_is_parent_dir(seg: Seq<char>) -> bool {
    seg.len() == 2 && seg[0] == '.' && seg[1] == '.'
}

/// The file name a single path segment denotes: none for an empty segment or
/// for the current- and parent-directory markers.
pub open spec fn segment_file_name(seg: Seq<char>) -> Option<Seq<char>> {
    if seg.len() == 0 || seg_is_cur_dir(seg) || seg_is_parent_dir(seg) {
        None
    } else {
        Some(seg)
    }
}

/// The final path component of a name, as a path API reads it: segments are
/// separated by '/', trailing empty and current-directory segments are
/// skipped, and a name whose last remaining segment is the parent-directory
/// marker, or that has no segment left, has no file name.
pub open spec fn file_name_of(s: Seq<char>) -> Option<Seq<char>>
    decreases s.len(),
{
    match last_index_of(s, '/') {
        None => segment_file_name(s),
        Some(k) => {
            proof {
                lemma_last_index_range(s, '/');
            }
            let seg = s.subrange(k + 1, s.len() as int);
            if seg.len() == 0 || seg_is_cur_dir(seg) {
                file_name_of(s.subrange(0, k))
            } else {
                segment_file_name(seg)
            }
        },
    }
}

/// The extension of a file name: within its final path component, what
/// follows the last '.', provided that dot is not the component's first
/// character (a component that only starts with a dot has no extension).
pub open spec fn extension_of(s: Seq<char>) -> Option<Seq<char>> {
    match file_name_of(s) {
        Some(f) => match last_index_of(f, '.') {
            Some(d) => if d > 0 {
                Some(f.subrange(d + 1, f.len() as int))
            } else {
                None
            },
            None => None,
        },
        None => None,
    }
}

/// The Unicode code point of a character, with ASCII uppercase letters mapped
/// to their lowercase counterparts.
pub open spec fn lower_code(c: char) -> u32 {
    if 65 <= c as int <= 90 {
        ((c as int) + 32) as u32
    } else {
        c as u32
    }
}

/// Whether two character sequences are equal up to ASCII case.
pub open spec fn eq_ignore_case(a: Seq<char>, b: Seq<char>) -> bool {
    a.len() == b.len() && (forall|i: int| 0 <= i < a.len() ==> lower_code(a[i]) == lower_code(b[i]))
}

/// Whether the file name's extension matches one of the allowed ones, up to
/// ASCII case.
pub open spec fn extension_allowed(name: Seq<char>, allowed: Seq<Seq<char>>) -> bool {
    match extension_of(name) {
        Some(ext) => exists|k: int| 0 <= k < allowed.len() && eq_ignore_case(ext, allowed[k]),
        None => false,
    }
}

fn lower_code_exec(c: char) -> (r: u32)
    ensures
        r == lower_code(c),
{
    let v = c as u32;
    if 65 <= v && v <= 90 {
        v + 32
    } else {
        v
    }
}

/// The last occurrence of `c` within `s[lo..hi)`, as an index into `s`.
fn last_index_in(s: &str, lo: usize, hi: usize, c: char) -> (r: Option<usize>)
    requires
        lo <= hi <= s@.len(),
    ensures
        match r {
            Some(k) => lo <= k < hi && last_index_of(s@.subrange(lo as int, hi as int), c)
                == Some(k - lo),
            None => last_index_of(s@.subrange(lo as int, hi as int), c) is None,
        },
{
    let mut i: usize = hi;
    while i > lo
        invariant
            lo <= i <= hi <= s@.len(),
            forall|j: int| i <= j < hi ==> s@[j] != c,
        decreases i,
    {
        if s.get_char(i - 1) == c {
            proof {
                let sub = s@.subrange(lo as int, hi as int);
                assert(forall|j: int| 0 <= j < sub.len() ==> sub[j] == s@[lo + j]);
                lemma_last_index_at(sub, c, i - 1 - lo);
            }
            return Some(i - 1);
        }
        i = i - 1;
    }
    proof {
        let sub = s@.subrange(lo as int, hi as int);
        assert(forall|j: int| 0 <= j < sub.len() ==> sub[j] == s@[lo + j]);
        lemma_last_index_none(sub, c);
    }
    None
}

/// Locates the final path component of a name: the bounds within the string
/// of the segment a path API reads as the file name, if there is one.
fn file_name_range(filename: &str) -> (r: Option<(usize, usize)>)
    ensures
        match r {
            Some(bounds) => bounds.0 < bounds.1 <= filename@.len() && file_name_of(filename@)
                == Some(filename@.subrange(bounds.0 as int, bounds.1 as int)),
            None => file_name_of(filename@) is None,
        },
{
    let n = filename.unicode_len();
    proof {
        assert(filename@.subrange(0, n as int) =~= filename@);
    }
    let mut hi: usize = n;
    loop
        invariant
            hi <= n,
            n == filename@.len(),
            file_name_of(filename@) == file_name_of(filename@.subrange(0, hi as int)),
        decreases hi,
    {
        let ghost prefix = filename@.subrange(0, hi as int);
        match last_index_in(filename, 0, hi, '/') {
            None => {
                // The whole prefix is one segment
                if hi == 0 {
                    return None;
                }
                let c0 = filename.get_char(0);
                if hi == 1 && c0 == '.' {
                    return None;
                }
                if hi == 2 && c0 == '.' && filename.get_char(1) == '.' {
                    return None;
                }
                return Some((0, hi));
            },
            Some(k) => {
                proof {
                    assert(prefix.subrange(k + 1, prefix.len() as int) =~= filename@.subrange(
                        k + 1,
                        hi as int,
                    ));
                    assert(prefix.subrange(0, k as int) =~= filename@.subrange(0, k as int));
                }
                let lo = k + 1;
                if hi - lo == 0 || (hi - lo == 1 && filename.get_char(lo) == '.') {
                    // A trailing empty or current-directory segment is skipped
                    hi = k;
                } else if hi - lo == 2 && filename.get_char(lo) == '.' && filename.get_char(lo + 1)
                    == '.' {
                    return None;
                } else {
                    return Some((lo, hi));
                }
            },
        }
    }
}

/// Whether the characters of `a` in `[a_from, a_to)` equal `b`, up to ASCII
/// case.
fn range_eq_ignore_case(a: &str, a_from: usize, a_to: usize, b: &str) -> (r: bool)
    requires
        a_from <= a_to <= a@.len(),
    ensures
        r == eq_ignore_case(a@.subrange(a_from as int, a_to as int), b@),
{
    let b_len = b.unicode_len();
    if a_to - a_from != b_len {
        return false;
    }
    let mut j: usize = 0;
    let mut matches = true;
    while j < b_len
        invariant
            j <= b_len,
            a_to <= a@.len(),
            b_len == b@.len(),
            a_from + b_len == a_to,
            matches <==> (forall|t: int|
                0 <= t < j ==> lower_code(a@[a_from + t]) == lower_code(b@[t])),
        decreases b_len - j,
    {
        let ca = a.get_char(a_from + j);
        let cb = b.get_char(j);
        if lower_code_exec(ca) != lower_code_exec(cb) {
            matches = false;
        }
        j = j + 1;
    }
    proof {
        let part = a@.subrange(a_from as int, a_to as int);
        assert(forall|t: int| 0 <= t < part.len() ==> part[t] == a@[a_from + t]);
    }
    matches
}

/// Validates that a file name's final path component carries one of the
/// allowed extensions, compared case-insensitively over ASCII.
pub fn validate_file_extension(filename: &str, allowed_extensions: &[&str]) -> (r: bool)
    ensures
        r == extension_allowed(filename@, allowed_extensions@.map_values(|e: &str| e@)),
{
    let (f_lo, f_hi) = match file_name_range(filename) {
        Some(bounds) => bounds,
        None => {
            return false;
        },
    };
    let ghost f = filename@.subrange(f_lo as int, f_hi as int);
    let dot = match last_index_in(filename, f_lo, f_hi, '.') {
        Some(d) => d,
        None => {
            return false;
        },
    };
    if dot == f_lo {
        // The dot opening the component does not begin an extension
        return false;
    }
    let ghost ext = f.subrange(dot - f_lo + 1, f.len() as int);
    proof {
        assert(ext =~= filename@.subrange(dot + 1, f_hi as int));
        assert(extension_of(filename@) == Some(ext));
    }
    let ghost allowed_views = allowed_extensions@.map_values(|e: &str| e@);
    let mut k: usize = 0;
    let mut found = false;
    while k < allowed_extensions.len()
        invariant
            k <= allowed_extensions@.len(),
            dot < f_hi <= filename@.len(),
            ext == filename@.subrange(dot + 1, f_hi as int),
            extension_of(filename@) == Some(ext),
            allowed_views == allowed_extensions@.map_values(|e: &str| e@),
            found <==> (exists|t: int| 0 <= t < k && eq_ignore_case(ext, allowed_views[t])),
        decreases allowed_extensions@.len() - k,
    {
        let e: &str = allowed_extensions[k];
        proof {
            assert(allowed_views[k as int] == e@);
        }
        if range_eq_ignore_case(filename, dot + 1, f_hi, e) {
            found = true;
        }
        k = k + 1;
    }
    found
}

/// A character sequence with its leading dots removed.
pub open spec fn trim_leading_dots(s: Seq<char>) -> Seq<char>
    decreases s.len(),
{
    if s.len() > 0 && s[0] == '.' {
        trim_leading_dots(s.subrange(1, s.len() as int))
    } else {
        s
    }
}

proof fn lemma_trim_leading_dots(s: Seq<char>, i: int)
    requires
        0 <= i <= s.len(),
        forall|j: int| 0 <= j < i ==> s[j] == '.',
        i < s.len() ==> s[i] != '.',
    ensures
        trim_leading_dots(s) == s.subrange(i, s.len() as int),
    decreases i,
{
    if i == 0 {
        assert(s.subrange(0, s.len() as int) =~= s);
    } else {
        let tail = s.subrange(1, s.len() as int);
        lemma_trim_leading_dots(tail, i - 1);
        assert(tail.subrange(i - 1, tail.len() as int) =~= s.subrange(i, s.len() as int));
    }
}

/// Relies on chrono::Utc::now and DateTime::format with a pattern of
/// zero-padded numbers, underscores and a dotless fractional-seconds item:
/// the result is a nonempty timestamp that contains no dot.
#[verifier::external_body]
fn now_compact_timestamp() -> (r: String)
    ensures
        r@.len() > 0,
        forall|i: int| 0 <= i < r@.len() ==> r@[i] != '.',
{
    chrono::Utc::now().format("%Y%m%d_%H%M%S_%3f").to_string()
}

/// Generates a file name `prefix_<timestamp>.<extension>`, with any leading
/// dots of the extension dropped; the timestamp is nonempty and dotless.
pub fn generate_filename(prefix: &str, extension: &str) -> (r: String)
    ensures
        exists|ts: Seq<char>|
            {
                &&& ts.len() > 0
                &&& forall|i: int| 0 <= i < ts.len() ==> ts[i] != '.'
                &&& r@ == prefix@ + "_"@ + ts + "."@ + trim_leading_dots(extension@)
            },
{
    let timestamp = now_compact_timestamp();
    let ext_len = extension.unicode_len();
    let mut i: usize = 0;
    while i < ext_len
        invariant_except_break
            i <= ext_len,
            ext_len == extension@.len(),
            forall|j: int| 0 <= j < i ==> extension@[j] == '.',
        ensures
            i <= ext_len,
            ext_len == extension@.len(),
            forall|j: int| 0 <= j < i ==> extension@[j] == '.',
            i < ext_len ==> extension@[i as int] != '.',
        decreases ext_len - i,
    {
        if extension.get_char(i) != '.' {
            break ;
        }
        i = i + 1;
    }
    proof {
        lemma_trim_leading_dots(extension@, i as int);
    }
    let trimmed = extension.substring_char(i, ext_len);
    let r = String::from_str(prefix).concat("_").concat(timestamp.as_str()).concat(".").concat(
        trimmed,
    );
    proof {
        assert(r@ == prefix@ + "_"@ + timestamp@ + "."@ + trim_leading_dots(extension@));
    }
    r
}

} // verus!
