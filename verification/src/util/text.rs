//! Text measurement and segmentation used by the table layout and the text
//! entry box.  Grapheme segmentation, display width and word wrapping are
//! computed by outside crates; this module states what the rest of the
//! library relies on about them.
use vstd::prelude::*;
use unicode_segmentation::UnicodeSegmentation;

verus! {

/// The extended grapheme clusters of a string, in order.
pub uninterp spec fn grapheme_clusters(s: Seq<char>) -> Seq<Seq<char>>;

/// The display width of a string in terminal columns.
pub uninterp spec fn display_width(s: Seq<char>) -> usize;

/// The lines that a string is wrapped into at the given column width.
pub uninterp spec fn wrapped_lines(s: Seq<char>, width: usize) -> Seq<Seq<char>>;

/// The characters of all parts, joined in order.
pub open spec fn concat_all(parts: Seq<Seq<char>>) -> Seq<char>
    decreases parts.len(),
{
    if parts.len() == 0 {
        Seq::empty()
    } else {
        concat_all(parts.drop_last()) + parts.last()
    }
}

/// The character sequences of a list of strings.
pub open spec fn views(v: Seq<String>) -> Seq<Seq<char>> {
    v.map_values(|s: String| s@)
}

/// Joining the first `i + 1` parts extends the join of the first `i` parts
/// by part `i`.
pub proof fn lemma_concat_take_step(parts: Seq<Seq<char>>, i: int)
    requires
        0 <= i < parts.len(),
    ensures
        concat_all(parts.take(i + 1)) == concat_all(parts.take(i)) + parts[i],
{
    assert(parts.take(i + 1).drop_last() =~= parts.take(i));
}

/// Joining the parts from `lo` up to `hi + 1` extends the join of the parts
/// from `lo` up to `hi` by part `hi`.
pub proof fn lemma_concat_subrange_step(parts: Seq<Seq<char>>, lo: int, hi: int)
    requires
        0 <= lo <= hi < parts.len(),
    ensures
        concat_all(parts.subrange(lo, hi + 1)) == concat_all(parts.subrange(lo, hi)) + parts[hi],
{
    assert(parts.subrange(lo, hi + 1).drop_last() =~= parts.subrange(lo, hi));
}

/// A join of non-empty parts is empty exactly when there are no parts.
pub proof fn lemma_concat_nonempty(parts: Seq<Seq<char>>)
    requires
        forall|i: int| 0 <= i < parts.len() ==> #[trigger] parts[i].len() > 0,
    ensures
        (concat_all(parts).len() == 0) <==> (parts.len() == 0),
    decreases parts.len(),
{
    if parts.len() > 0 {
        let p = parts.drop_last();
        assert forall|i: int| 0 <= i < p.len() implies #[trigger] p[i].len() > 0 by {
            assert(p[i] == parts[i]);
        }
        lemma_concat_nonempty(p);
        assert(parts.last() == parts[parts.len() - 1]);
    }
}

/// Splits `s` into extended grapheme clusters with
/// `unicode_segmentation::UnicodeSegmentation::graphemes(s, true)`.
/// Claimed: the clusters are the value named `grapheme_clusters`; they are
/// consecutive non-empty slices of `s`, so joined in order they give back `s`.
#[verifier::external_body]
pub(crate) fn graphemes_of(s: &str) -> (r: Vec<String>)
    ensures
        views(r@) == grapheme_clusters(s@),
        concat_all(views(r@)) == s@,
        forall|i: int| 0 <= i < r@.len() ==> #[trigger] r@[i]@.len() > 0,
{
    s.graphemes(true).map(String::from).collect()
}

/// Display width of `s` from `unicode_width::UnicodeWidthStr::width`.
/// Claimed: the result is the value named `display_width`; nothing more is
/// stated, since the width comes from Unicode tables and joining rules.
#[verifier::external_body]
pub(crate) fn str_width(s: &str) -> (r: usize)
    ensures
        r == display_width(s@),
{
    unicode_width::UnicodeWidthStr::width(s)
}

/// Wraps `s` at `width` columns with `textwrap::wrap`.
/// Claimed: the lines are the value named `wrapped_lines`; nothing is stated
/// of their contents, which follow textwrap's word splitting rules.
#[verifier::external_body]
pub(crate) fn wrap_lines(s: &str, width: usize) -> (r: Vec<String>)
    ensures
        views(r@) == wrapped_lines(s@, width),
{
    textwrap::wrap(s, width).into_iter().map(|line| line.into_owned()).collect()
}

/// Appends one character with `String::push`.
/// Claimed: the string afterwards is the old one followed by `c`.
#[verifier::external_body]
pub(crate) fn push_char(s: &mut String, c: char)
    ensures
        final(s)@ == old(s)@.push(c),
{
    s.push(c);
}

} // verus!

verus! {

/// The characters of `s`, one by one.
pub fn chars_of(s: &str) -> (r: Vec<char>)
    ensures
        r@ == s@,
{
    let n = s.unicode_len();
    let mut v: Vec<char> = Vec::new();
    let mut i: usize = 0;
    while i < n
        invariant
            n == s@.len(),
            i <= n,
            v@ == s@.take(i as int),
        decreases n - i,
    {
        v.push(s.get_char(i));
        assert(v@ =~= s@.take(i + 1));
        i = i + 1;
    }
    assert(s@.take(n as int) =~= s@);
    v
}

/// A string holding the characters `chars[from..to]`.
pub fn string_from_chars(chars: &Vec<char>, from: usize, to: usize) -> (r: String)
    requires
        from <= to <= chars@.len(),
    ensures
        r@ == chars@.subrange(from as int, to as int),
{
    let mut s = String::new();
    let mut i: usize = from;
    while i < to
        invariant
            from <= i <= to <= chars@.len(),
            s@ == chars@.subrange(from as int, i as int),
        decreases to - i,
    {
        push_char(&mut s, chars[i]);
        assert(s@ =~= chars@.subrange(from as int, i + 1));
        i = i + 1;
    }
    s
}

/// `needle` occurs in `hay` starting at position `p`.
pub open spec fn occurs_at(hay: Seq<char>, needle: Seq<char>, p: int) -> bool {
    0 <= p && p + needle.len() <= hay.len() && hay.subrange(p, p + needle.len()) == needle
}

/// The last occurrence of `needle` in `hay` that starts at or before `p`.
pub open spec fn rfind_from(hay: Seq<char>, needle: Seq<char>, p: int) -> Option<int>
    decreases p + 1,
{
    if p < 0 {
        None
    } else if occurs_at(hay, needle, p) {
        Some(p)
    } else {
        rfind_from(hay, needle, p - 1)
    }
}

/// Where the last occurrence of `needle` in `hay` starts, as `str::rfind`
/// reports it (counted in characters here).
pub open spec fn rfind(hay: Seq<char>, needle: Seq<char>) -> Option<int> {
    rfind_from(hay, needle, hay.len() - needle.len())
}

fn occurs_at_exec(hay: &Vec<char>, hay_len: usize, needle: &Vec<char>, p: usize) -> (r: bool)
    requires
        hay_len <= hay@.len(),
        p + needle@.len() <= hay_len,
    ensures
        r == occurs_at(hay@.take(hay_len as int), needle@, p as int),
{
    let m = needle.len();
    let mut j: usize = 0;
    while j < m
        invariant
            m == needle@.len(),
            hay_len <= hay@.len(),
            p + m <= hay_len,
            j <= m,
            forall|k: int| 0 <= k < j ==> hay@[p + k] == needle@[k],
        decreases m - j,
    {
        if hay[p + j] != needle[j] {
            assert(hay@.take(hay_len as int).subrange(p as int, p + m)[j as int] != needle@[j as int]);
            return false;
        }
        j = j + 1;
    }
    assert(hay@.take(hay_len as int).subrange(p as int, p + m) =~= needle@);
    true
}

/// The last occurrence of `needle` in the first `hay_len` characters of `hay`.
pub fn rfind_chars(hay: &Vec<char>, hay_len: usize, needle: &Vec<char>) -> (r: Option<usize>)
    requires
        hay_len <= hay@.len(),
    ensures
        r matches Some(x) ==> rfind(hay@.take(hay_len as int), needle@) == Some(x as int),
        r is None ==> rfind(hay@.take(hay_len as int), needle@) is None,
{
    let ghost h = hay@.take(hay_len as int);
    let m = needle.len();
    if m > hay_len {
        assert(rfind_from(h, needle@, h.len() - needle@.len()) is None);
        return None;
    }
    let mut p: usize = hay_len - m;
    loop
        invariant
            hay_len <= hay@.len(),
            h == hay@.take(hay_len as int),
            m == needle@.len(),
            m <= hay_len,
            p <= hay_len - m,
            rfind(h, needle@) == rfind_from(h, needle@, p as int),
        decreases p,
    {
        if occurs_at_exec(hay, hay_len, needle, p) {
            return Some(p);
        }
        if p == 0 {
            assert(rfind_from(h, needle@, -1) is None);
            return None;
        }
        p = p - 1;
    }
}

} // verus!
