//! Package-relative asset paths.
//!
//! A package-relative path names an asset inside a package, as in
//! `/dir/pkg.package[inner/file.ext]`: the text before the outermost `[` is
//! the path of the package, the text between it and the final `]` is the
//! path inside it. Brackets nest, and a bracket right after a backslash is
//! escaped: it is literal text and does not count toward the nesting.
//!
//! Positions are byte positions in the UTF-8 text, as Rust's string
//! slicing counts them.
use vstd::prelude::*;
use vstd::slice::slice_subrange;
use vstd::string::StringSliceAdditionalSpecFns;

use crate::text::{char_vec, string_from_chars};

verus! {

/// `[` or `]`.
pub open spec fn is_delimiter(c: char) -> bool {
    c == '[' || c == ']'
}

/// The character at `k` is preceded by a backslash.
pub open spec fn follows_backslash(s: Seq<char>, k: int) -> bool {
    k > 0 && s[k - 1] == '\\'
}

/// Scans the positions below `i` from the right, with `depth` opening
/// delimiters still needed, and gives the position where the last one is
/// found. An escaped delimiter (`open` or `close` right after `escape`) is
/// passed over together with its escape.
pub open spec fn scan_delimiters<T>(
    s: Seq<T>,
    i: int,
    depth: int,
    open: T,
    close: T,
    escape: T,
) -> Option<int>
    decreases i,
{
    if i <= 0 || i > s.len() {
        None
    } else {
        let k = i - 1;
        if (s[k] == open || s[k] == close) && k > 0 && s[k - 1] == escape {
            scan_delimiters(s, k - 1, depth, open, close, escape)
        } else {
            let d = if s[k] == open {
                depth - 1
            } else if s[k] == close {
                depth + 1
            } else {
                depth
            };
            if d == 0 {
                Some(k)
            } else {
                scan_delimiters(s, k, d, open, close, escape)
            }
        }
    }
}

/// The scan over characters.
pub open spec fn scan_open(s: Seq<char>, i: int, depth: int) -> Option<int> {
    scan_delimiters(s, i, depth, '[', ']', '\\')
}

/// The opening delimiter that matches a closing one at `close`, counted in
/// characters: the scan starts just left of `close` (or at the end of `s`,
/// if that is nearer).
pub open spec fn matching_open(s: Seq<char>, close: int) -> Option<int> {
    scan_open(s, if close < s.len() { close } else { s.len() as int }, 1)
}

/// The byte of `[` in UTF-8. `[`, `]` and `\` are one byte each, and no
/// other character has any of their bytes in its encoding.
pub open spec fn open_byte() -> u8 {
    91u8
}

/// The byte of `]` in UTF-8.
pub open spec fn close_byte() -> u8 {
    93u8
}

/// The byte of `\` in UTF-8.
pub open spec fn backslash_byte() -> u8 {
    92u8
}

/// The opening delimiter that matches a closing one at byte `close` of the
/// UTF-8 bytes `b`: the scan starts just left of `close` (or at the end of
/// `b`, if that is nearer).
pub open spec fn matching_open_byte(b: Seq<u8>, close: int) -> Option<int> {
    scan_delimiters(
        b,
        if close < b.len() {
            close
        } else {
            b.len() as int
        },
        1,
        open_byte(),
        close_byte(),
        backslash_byte(),
    )
}

/// The byte position of the outermost closing delimiter: the last byte,
/// when it is `]`.
pub open spec fn outermost_close(b: Seq<u8>) -> Option<int> {
    if b.len() > 0 && b.last() == close_byte() {
        Some(b.len() - 1)
    } else {
        None
    }
}

/// The UTF-8 text `b` ends with `]`, and that `]` has a matching `[`.
pub open spec fn is_package_relative(b: Seq<u8>) -> bool {
    b.len() > 0 && b.last() == close_byte() && matching_open_byte(b, b.len() - 1) is Some
}

/// A position of `usize` seen as an integer.
pub open spec fn as_int_pos(r: Option<usize>) -> Option<int> {
    match r {
        Some(j) => Some(j as int),
        None => None,
    }
}

/// Too few positions are left for the opening delimiters still needed.
proof fn lemma_scan_short<T>(s: Seq<T>, i: int, depth: int, open: T, close: T, escape: T)
    requires
        depth > i,
    ensures
        scan_delimiters(s, i, depth, open, close, escape) is None,
    decreases i,
{
    if i > 0 && i <= s.len() {
        let k = i - 1;
        if (s[k] == open || s[k] == close) && k > 0 && s[k - 1] == escape {
            lemma_scan_short(s, k - 1, depth, open, close, escape);
        } else {
            let d = if s[k] == open {
                depth - 1
            } else if s[k] == close {
                depth + 1
            } else {
                depth
            };
            lemma_scan_short(s, k, d, open, close, escape);
        }
    }
}

fn matching_open_in(s: &[char], close: usize) -> (r: Option<usize>)
    ensures
        as_int_pos(r) == matching_open(s@, close as int),
{
    let n = s.len();
    let mut i: usize = if close < n {
        close
    } else {
        n
    };
    let mut depth: usize = 1;
    while i > 0
        invariant
            i <= s@.len(),
            depth >= 1,
            scan_open(s@, i as int, depth as int) == matching_open(s@, close as int),
        decreases i,
    {
        let k = i - 1;
        let c = s[k];
        if (c == '[' || c == ']') && k > 0 && s[k - 1] == '\\' {
            i = k - 1;
        } else if c == '[' {
            if depth == 1 {
                return Some(k);
            }
            depth = depth - 1;
            i = k;
        } else if c == ']' {
            if depth >= k {
                proof {
                    lemma_scan_short(s@, k as int, depth + 1, '[', ']', '\\');
                }
                return None;
            }
            depth = depth + 1;
            i = k;
        } else {
            i = k;
        }
    }
    None
}

/// The matching `[` for a `]` at byte `close` of `b`, as a byte position.
fn matching_open_byte_in(b: &[u8], close: usize) -> (r: Option<usize>)
    ensures
        as_int_pos(r) == matching_open_byte(b@, close as int),
{
    let n = b.len();
    let mut i: usize = if close < n {
        close
    } else {
        n
    };
    let mut depth: usize = 1;
    while i > 0
        invariant
            i <= b@.len(),
            depth >= 1,
            scan_delimiters(b@, i as int, depth as int, open_byte(), close_byte(), backslash_byte())
                == matching_open_byte(b@, close as int),
        decreases i,
    {
        let k = i - 1;
        let c = b[k];
        if (c == 91u8 || c == 93u8) && k > 0 && b[k - 1] == 92u8 {
            i = k - 1;
        } else if c == 91u8 {
            if depth == 1 {
                return Some(k);
            }
            depth = depth - 1;
            i = k;
        } else if c == 93u8 {
            if depth >= k {
                proof {
                    lemma_scan_short(
                        b@,
                        k as int,
                        depth + 1,
                        open_byte(),
                        close_byte(),
                        backslash_byte(),
                    );
                }
                return None;
            }
            depth = depth + 1;
            i = k;
        } else {
            i = k;
        }
    }
    None
}

/// Finds the `[` that matches the `]` at byte `closing_delimiter_index`.
///
/// The scan goes right to left from just before that position, skips each
/// escaped delimiter with its backslash, and stops where the nesting is
/// balanced. The result is a byte position; `None` when no such `[`
/// exists. The index is not checked to hold a `]`: the scan runs as if it
/// did.
pub fn find_matching_opening_delimiter(path: &str, closing_delimiter_index: usize) -> (r: Option<
    usize,
>)
    ensures
        as_int_pos(r) == matching_open_byte(path.spec_bytes(), closing_delimiter_index as int),
{
    matching_open_byte_in(path.as_bytes(), closing_delimiter_index)
}

/// The byte position of the outermost `]`: the last byte, when it is one.
pub fn find_outermost_closing_delimiter(path: &str) -> (r: Option<usize>)
    ensures
        as_int_pos(r) == outermost_close(path.spec_bytes()),
{
    let b = path.as_bytes();
    let n = b.len();
    if n == 0 || b[n - 1] != 93u8 {
        None
    } else {
        Some(n - 1)
    }
}

/// Whether `path` addresses an asset inside a package: it ends with `]`
/// and that `]` has a matching `[`.
pub fn is_package_relative_path(path: &str) -> (r: bool)
    ensures
        r == is_package_relative(path.spec_bytes()),
{
    let b = path.as_bytes();
    let n = b.len();
    n > 0 && b[n - 1] == 93u8 && matching_open_byte_in(b, n - 1).is_some()
}

/// The backslash at `k` escapes the delimiter after it, within `t`.
pub open spec fn is_escape_marker(t: Seq<char>, k: int) -> bool {
    t[k] == '\\' && k + 1 < t.len() && is_delimiter(t[k + 1])
}

/// The first `j` characters of `t` with each escape marker removed.
pub open spec fn unescape_prefix(t: Seq<char>, j: int) -> Seq<char>
    decreases j,
{
    if j <= 0 {
        Seq::empty()
    } else if is_escape_marker(t, j - 1) {
        unescape_prefix(t, j - 1)
    } else {
        unescape_prefix(t, j - 1).push(t[j - 1])
    }
}

/// `t` with `\[` written as `[` and `\]` as `]`.
pub open spec fn unescape_all(t: Seq<char>) -> Seq<char> {
    unescape_prefix(t, t.len() as int)
}

/// Where unescaping stops: the end of `s` when `s` ends with `]`; else the
/// `[` that a closing delimiter at the end would match, if there is one.
pub open spec fn unescape_end(s: Seq<char>) -> int {
    if s.last() == ']' {
        s.len() as int
    } else {
        match matching_open(s, s.len() - 1) {
            Some(o) => o,
            None => s.len() as int,
        }
    }
}

/// `s` with the delimiters before `unescape_end(s)` unescaped and the rest
/// left as it is.
pub open spec fn unescaped(s: Seq<char>) -> Seq<char> {
    if s.len() == 0 {
        s
    } else {
        let e = unescape_end(s);
        unescape_all(s.take(e)) + s.skip(e)
    }
}

/// The package path (unescaped) and the path inside the package.
pub open spec fn split_outer(s: Seq<char>) -> Option<(Seq<char>, Seq<char>)> {
    if s.len() > 0 && s.last() == ']' {
        match matching_open(s, s.len() - 1) {
            Some(o) => Some((unescaped(s.take(o)), s.subrange(o + 1, s.len() - 1))),
            None => None,
        }
    } else {
        None
    }
}

proof fn lemma_scan_in_range(s: Seq<char>, i: int, depth: int)
    ensures
        scan_open(s, i, depth) matches Some(o) ==> 0 <= o < i && o < s.len(),
    decreases i,
{
    if i > 0 && i <= s.len() {
        let k = i - 1;
        if is_delimiter(s[k]) && follows_backslash(s, k) {
            lemma_scan_in_range(s, k - 1, depth);
        } else {
            let d = if s[k] == '[' {
                depth - 1
            } else if s[k] == ']' {
                depth + 1
            } else {
                depth
            };
            lemma_scan_in_range(s, k, d);
        }
    }
}

/// Removes the escape markers from `s[..end]` and keeps `s[end..]`.
fn unescape_before(s: &[char], end: usize) -> (r: Vec<char>)
    requires
        end <= s@.len(),
    ensures
        r@ == unescape_all(s@.take(end as int)) + s@.skip(end as int),
{
    let ghost t = s@.take(end as int);
    let mut r: Vec<char> = Vec::new();
    let mut j: usize = 0;
    while j < end
        invariant
            end <= s@.len(),
            t == s@.take(end as int),
            j <= end,
            r@ == unescape_prefix(t, j as int),
        decreases end - j,
    {
        let c = s[j];
        if c == '\\' && j + 1 < end && (s[j + 1] == '[' || s[j + 1] == ']') {
        } else {
            r.push(c);
        }
        j = j + 1;
    }
    let ghost u = r@;
    let mut j: usize = end;
    while j < s.len()
        invariant
            end <= j <= s@.len(),
            r@ == u + s@.subrange(end as int, j as int),
        decreases s.len() - j,
    {
        r.push(s[j]);
        assert(s@.subrange(end as int, j + 1) == s@.subrange(end as int, j as int).push(s@[j as int]));
        j = j + 1;
    }
    assert(s@.subrange(end as int, s@.len() as int) == s@.skip(end as int));
    r
}

fn unescaped_in(s: &[char]) -> (r: Vec<char>)
    ensures
        r@ == unescaped(s@),
{
    let n = s.len();
    if n == 0 {
        return Vec::new();
    }
    let end = if s[n - 1] == ']' {
        n
    } else {
        match matching_open_in(s, n - 1) {
            Some(o) => o,
            None => n,
        }
    };
    proof {
        lemma_scan_in_range(s@, n - 1, 1);
    }
    unescape_before(s, end)
}

/// Turns the escaped delimiters `\[` and `\]` back into `[` and `]`, in
/// the part of `path` that lies outside a package: all of it when it ends
/// with `]`, else the text before the `[` that a final `]` would match
/// (or all of it, if there is no such `[`).
pub fn unescape_delimiters(path: &str) -> (r: String)
    ensures
        r@ == unescaped(path@),
{
    let s = char_vec(path);
    let u = unescaped_in(s.as_slice());
    string_from_chars(u.as_slice())
}

/// Splits a package-relative path into the path of the package, with its
/// delimiters unescaped, and the path inside the package, as written.
/// `None` when `path` is not package-relative.
pub fn split_package_relative_path_outer(path: &str) -> (r: Option<(String, String)>)
    ensures
        match r {
            Some((outer, inner)) => split_outer(path@) == Some((outer@, inner@)),
            None => split_outer(path@) is None,
        },
{
    let s = char_vec(path);
    let n = s.len();
    if n == 0 || s[n - 1] != ']' {
        return None;
    }
    let close = n - 1;
    let open = match matching_open_in(s.as_slice(), close) {
        Some(o) => o,
        None => return None,
    };
    proof {
        lemma_scan_in_range(s@, close as int, 1);
    }
    let outer = unescaped_in(slice_subrange(s.as_slice(), 0, open));
    let inner = string_from_chars(slice_subrange(s.as_slice(), open + 1, close));
    assert(s@.subrange(0, open as int) == s@.take(open as int));
    Some((string_from_chars(outer.as_slice()), inner))
}

/// `t` with a backslash put before each delimiter.
pub open spec fn escape_all(t: Seq<char>) -> Seq<char>
    decreases t.len(),
{
    if t.len() == 0 {
        t
    } else {
        let c = t.last();
        let piece = if is_delimiter(c) {
            seq!['\\', c]
        } else {
            seq![c]
        };
        escape_all(t.drop_last()) + piece
    }
}

/// The text between a `[` placed before `inner` and a `]` placed after it
/// is balanced: that `]` matches that `[`.
pub open spec fn is_balanced(inner: Seq<char>) -> bool {
    matching_open(seq!['['] + inner + seq![']'], inner.len() + 1int) == Some(0int)
}

proof fn lemma_escape_shape(t: Seq<char>)
    ensures
        escape_all(t).len() >= t.len(),
        t.len() > 0 ==> escape_all(t).last() == t.last(),
        forall|k: int|
            0 <= k < escape_all(t).len() && is_delimiter(#[trigger] escape_all(t)[k]) ==> k > 0
                && escape_all(t)[k - 1] == '\\',
        escape_all(t).len() > 0 ==> !is_delimiter(escape_all(t)[0]),
    decreases t.len(),
{
    if t.len() > 0 {
        let rest = t.drop_last();
        lemma_escape_shape(rest);
        let a = escape_all(rest);
        let c = t.last();
        let piece = if is_delimiter(c) {
            seq!['\\', c]
        } else {
            seq![c]
        };
        let e = a + piece;
        assert(escape_all(t) == e);
        assert forall|k: int| 0 <= k < e.len() && is_delimiter(#[trigger] e[k]) implies k > 0 && e[k
            - 1] == '\\' by {
            if k < a.len() {
                assert(e[k] == a[k]);
                assert(e[k - 1] == a[k - 1]);
            }
        }
    }
}

/// Unescaping a prefix depends only on the characters up to one past it.
proof fn lemma_unescape_prefix_agree(t1: Seq<char>, t2: Seq<char>, j: int)
    requires
        0 <= j,
        j <= t1.len(),
        j <= t2.len(),
        forall|k: int| 0 <= k < j ==> t1[k] == t2[k],
        forall|k: int| 0 <= k < j ==> is_escape_marker(t1, k) == is_escape_marker(t2, k),
    ensures
        unescape_prefix(t1, j) == unescape_prefix(t2, j),
    decreases j,
{
    if j > 0 {
        lemma_unescape_prefix_agree(t1, t2, j - 1);
    }
}

proof fn lemma_unescape_escape(t: Seq<char>)
    ensures
        unescape_all(escape_all(t)) == t,
    decreases t.len(),
{
    if t.len() > 0 {
        let rest = t.drop_last();
        lemma_unescape_escape(rest);
        lemma_escape_shape(rest);
        let a = escape_all(rest);
        let c = t.last();
        let piece = if is_delimiter(c) {
            seq!['\\', c]
        } else {
            seq![c]
        };
        let e = a + piece;
        assert(escape_all(t) == e);
        assert forall|k: int| 0 <= k < a.len() implies is_escape_marker(e, k) == is_escape_marker(
            a,
            k,
        ) by {
            assert(e[k] == a[k]);
            if k + 1 < a.len() {
                assert(e[k + 1] == a[k + 1]);
            } else {
                assert(e[k + 1] == piece[0]);
            }
        }
        assert forall|k: int| 0 <= k < a.len() implies e[k] == a[k] by {}
        lemma_unescape_prefix_agree(e, a, a.len() as int);
        if is_delimiter(c) {
            assert(is_escape_marker(e, a.len() as int));
            assert(!is_escape_marker(e, a.len() + 1int));
            assert(e.len() == a.len() + 2 && e[a.len() + 1int] == c);
            assert(unescape_prefix(e, a.len() + 1int) == unescape_prefix(e, a.len() as int));
            assert(unescape_prefix(e, e.len() as int) == unescape_prefix(e, a.len() as int).push(c));
        } else {
            assert(!is_escape_marker(e, a.len() as int));
            assert(unescape_prefix(e, e.len() as int) == unescape_prefix(e, a.len() as int).push(c));
        }
        assert(rest.push(c) == t);
    }
}

/// A scan over text whose every delimiter is escaped finds nothing.
proof fn lemma_scan_all_escaped(s: Seq<char>, i: int, depth: int)
    requires
        depth >= 1,
        forall|k: int|
            0 <= k < s.len() && is_delimiter(#[trigger] s[k]) ==> k > 0 && s[k - 1] == '\\',
    ensures
        scan_open(s, i, depth) is None,
    decreases i,
{
    if i > 0 && i <= s.len() {
        let k = i - 1;
        if is_delimiter(s[k]) {
            lemma_scan_all_escaped(s, k - 1, depth);
        } else {
            lemma_scan_all_escaped(s, k, depth);
        }
    }
}

/// A scan that finds its `[` inside `q` finds the same one, shifted, when
/// `q` follows a text that does not end with a backslash.
proof fn lemma_scan_shift(a: Seq<char>, q: Seq<char>, i: int, depth: int)
    requires
        a.len() == 0 || a.last() != '\\',
        scan_open(q, i, depth) is Some,
    ensures
        scan_open(a + q, a.len() + i, depth) == Some(scan_open(q, i, depth)->0 + a.len()),
    decreases i,
{
    let p = a + q;
    let k = i - 1;
    assert(p[a.len() + k] == q[k]);
    if k > 0 {
        assert(p[a.len() + k - 1] == q[k - 1]);
    }
    if is_delimiter(q[k]) && follows_backslash(q, k) {
        lemma_scan_shift(a, q, k - 1, depth);
    } else {
        assert(!(is_delimiter(p[a.len() + k]) && follows_backslash(p, a.len() + k)));
        let d = if q[k] == '[' {
            depth - 1
        } else if q[k] == ']' {
            depth + 1
        } else {
            depth
        };
        if d != 0 {
            lemma_scan_shift(a, q, k, d);
        }
    }
}

/// Escaping an outer path, then adding a balanced inner path in brackets,
/// gives a path that splits back into the two. The outer path may not end
/// with a backslash: that backslash would escape the added `[`.
pub proof fn lemma_split_round_trip(outer: Seq<char>, inner: Seq<char>)
    requires
        outer.len() == 0 || outer.last() != '\\',
        is_balanced(inner),
    ensures
        split_outer(escape_all(outer) + seq!['['] + inner + seq![']']) == Some((outer, inner)),
{
    let a = escape_all(outer);
    let q = seq!['['] + inner + seq![']'];
    let p = escape_all(outer) + seq!['['] + inner + seq![']'];
    assert(p == a + q);
    lemma_escape_shape(outer);
    lemma_unescape_escape(outer);
    assert(matching_open(q, inner.len() + 1int) == scan_open(q, inner.len() + 1int, 1));
    lemma_scan_shift(a, q, inner.len() + 1int, 1);
    assert(p.last() == ']');
    assert(matching_open(p, p.len() - 1) == Some(a.len() as int));
    assert(p.take(a.len() as int) == a);
    assert(p.subrange(a.len() + 1int, p.len() - 1) == inner);
    if a.len() > 0 {
        if a.last() != ']' {
            lemma_scan_all_escaped(a, a.len() - 1, 1);
        }
        assert(a.take(unescape_end(a)) == a);
        assert(a.skip(unescape_end(a)) == Seq::<char>::empty());
        assert(unescaped(a) == outer);
    } else {
        assert(outer.len() == 0);
    }
}

} // verus!
