//! Byte-window slicing of strings and the timestamp labels built from it.

use vstd::prelude::*;
use vstd::utf8::*;
use vstd::string::*;

verus! {

broadcast use {vstd::utf8::group_utf8_lib, vstd::string::group_string_axioms, vstd::slice::group_slice_axioms};

/// The bytes of `bytes` that a window from `start` to `end` keeps: the
/// whole range when the text reaches `end`, the tail from `start` when the
/// text ends inside the window, and nothing when it ends before `start`.
pub open spec fn byte_window(bytes: Seq<u8>, start: int, end: int) -> Seq<u8> {
    if bytes.len() >= end {
        bytes.subrange(start, end)
    } else if bytes.len() > start {
        bytes.subrange(start, bytes.len() as int)
    } else {
        Seq::empty()
    }
}

/// The window from `start` to `end` can be cut out of `bytes`: the bounds
/// it uses are ordered and fall on character boundaries.
pub open spec fn window_defined(bytes: Seq<u8>, start: int, end: int) -> bool {
    if bytes.len() >= end {
        &&& 0 <= start <= end
        &&& is_char_boundary(bytes, start)
        &&& is_char_boundary(bytes, end)
    } else if bytes.len() > start {
        &&& 0 <= start
        &&& is_char_boundary(bytes, start)
    } else {
        true
    }
}

/// The window from `start` to `end` can be cut out of the UTF-8 encoding of
/// `text`.
pub open spec fn window_fits(text: Seq<char>, start: int, end: int) -> bool {
    window_defined(encode_utf8(text), start, end)
}

/// The characters of the window from byte `start` to byte `end` of the UTF-8
/// encoding of `text`.
pub open spec fn window_text(text: Seq<char>, start: int, end: int) -> Seq<char> {
    decode_utf8(byte_window(encode_utf8(text), start, end))
}

/// A character boundary of a text that lies inside a prefix ending on a
/// boundary is a boundary of that prefix too.
proof fn lemma_boundary_in_prefix(bytes: Seq<u8>, start: int, end: int)
    requires
        valid_utf8(bytes),
        0 <= start <= end <= bytes.len(),
        is_char_boundary(bytes, start),
        is_char_boundary(bytes, end),
    ensures
        valid_utf8(bytes.subrange(0, end)),
        is_char_boundary(bytes.subrange(0, end), start),
{
    let head = bytes.subrange(0, end);
    valid_utf8_split(bytes, end);
    if start == end {
        is_char_boundary_start_end_of_seq(head);
    } else {
        is_char_boundary_iff_not_is_continuation_byte(head, start);
        is_char_boundary_iff_not_is_continuation_byte(bytes, start);
    }
}

/// Cuts the window from byte `start` to byte `end` out of `s`, shortening it
/// where `s` ends early, and giving the empty text where `s` ends before
/// `start`.
pub fn safe_slice(s: &str, start: usize, end: usize) -> (r: &str)
    requires
        window_fits(s@, start as int, end as int),
    ensures
        r.spec_bytes() == byte_window(s.spec_bytes(), start as int, end as int),
        r@ == window_text(s@, start as int, end as int),
        s.spec_bytes().len() >= end ==> r.spec_bytes() == s.spec_bytes().subrange(start as int, end as int),
        start < s.spec_bytes().len() < end ==> r.spec_bytes() == s.spec_bytes().subrange(
            start as int,
            s.spec_bytes().len() as int,
        ),
        s.spec_bytes().len() <= start && s.spec_bytes().len() < end ==> r@.len() == 0,
{
    let len = s.as_bytes().len();
    if len >= end {
        let (head, _rest) = s.split_at(end);
        proof {
            lemma_boundary_in_prefix(s.spec_bytes(), start as int, end as int);
        }
        let (_skipped, mid) = head.split_at(start);
        assert(mid.spec_bytes() =~= s.spec_bytes().subrange(start as int, end as int));
        mid
    } else if len > start {
        let (_skipped, tail) = s.split_at(start);
        tail
    } else {
        let empty = "";
        proof {
            reveal_strlit("");
        }
        assert(empty.spec_bytes() =~= Seq::<u8>::empty());
        empty
    }
}

/// `safe_slice`'s preconditions, tested: true exactly when the window from
/// `start` to `end` can be cut out of `s`.
pub fn can_slice(s: &str, start: usize, end: usize) -> (ok: bool)
    ensures
        ok == window_fits(s@, start as int, end as int),
        s.spec_bytes().len() >= end ==> (ok <==> (start <= end && is_char_boundary(s.spec_bytes(), start as int)
            && is_char_boundary(s.spec_bytes(), end as int))),
        start < s.spec_bytes().len() < end ==> (ok <==> is_char_boundary(s.spec_bytes(), start as int)),
        s.spec_bytes().len() <= start && s.spec_bytes().len() < end ==> ok,
{
    let len = s.as_bytes().len();
    if len >= end {
        start <= end && s.is_char_boundary(start) && s.is_char_boundary(end)
    } else if len > start {
        s.is_char_boundary(start)
    } else {
        true
    }
}

/// Every position up to its end is a character boundary of an ASCII text,
/// and a window of it holds the characters between the clamped bounds.
pub proof fn lemma_ascii_window(s: &str, start: int, end: int)
    requires
        is_ascii(s),
        0 <= start <= end,
    ensures
        window_fits(s@, start, end),
        window_text(s@, start, end) == s@.subrange(
            if start < s@.len() { start } else { s@.len() as int },
            if end < s@.len() { end } else { s@.len() as int },
        ),
{
    let chars = s@;
    let bytes = s.spec_bytes();
    is_ascii_chars_encode_utf8(chars);
    let n = chars.len() as int;
    assert forall|i: int| 0 <= i <= n implies is_char_boundary(bytes, i) by {
        if i == n {
            is_char_boundary_start_end_of_seq(bytes);
        } else {
            is_char_boundary_iff_not_is_continuation_byte(bytes, i);
            assert(chars[i] as u8 == bytes[i]);
        }
    }
    let a = if start < n { start } else { n };
    let b = if end < n { end } else { n };
    let sub = chars.subrange(a, b);
    assert(is_ascii_chars(sub));
    is_ascii_chars_encode_utf8(sub);
    assert(byte_window(bytes, start, end) =~= encode_utf8(sub));
}

/// The short form of a timestamp: the window of bytes 5 to 10, a space,
/// and the window of bytes 11 to 16.
pub open spec fn timestamp_text(ts: Seq<char>) -> Seq<char> {
    window_text(ts, 5, 10) + seq![' '] + window_text(ts, 11, 16)
}

/// An ASCII timestamp of at least sixteen characters, such as an RFC 3339
/// time, always has a short form, and it is the month and day, a space,
/// and the hour and minute.
pub proof fn lemma_timestamp_of_ascii(ts: &str)
    requires
        is_ascii(ts),
        ts@.len() >= 16,
    ensures
        window_fits(ts@, 5, 10),
        window_fits(ts@, 11, 16),
        timestamp_text(ts@) == ts@.subrange(5, 10) + seq![' '] + ts@.subrange(11, 16),
{
    lemma_ascii_window(ts, 5, 10);
    lemma_ascii_window(ts, 11, 16);
}

/// A timestamp in the short form shown in lists: the month and day, a
/// space, then the hour and minute, cut from RFC 3339 byte positions
/// ("2026-03-05T12:34:56Z" becomes "03-05 12:34").
pub fn fmt_timestamp(ts: &str) -> (r: String)
    requires
        window_fits(ts@, 5, 10),
        window_fits(ts@, 11, 16),
    ensures
        r@ == timestamp_text(ts@),
        r@ == window_text(ts@, 5, 10) + seq![' '] + window_text(ts@, 11, 16),
{
    let date = safe_slice(ts, 5, 10);
    let time = safe_slice(ts, 11, 16);
    let mut r = String::from_str(date);
    let sep = " ";
    proof {
        reveal_strlit(" ");
    }
    r.append(sep);
    r.append(time);
    r
}

/// `needle` occurs in `hay` as a run of consecutive characters.
pub open spec fn contains_text(hay: Seq<char>, needle: Seq<char>) -> bool {
    exists|i: int| 0 <= i && i + needle.len() <= hay.len() && #[trigger] hay.subrange(i, i + needle.len()) == needle
}

/// The characters of `s`, in order, in a vector.
fn chars_of(s: &str) -> (v: Vec<char>)
    ensures
        v@ == s@,
{
    let mut v: Vec<char> = Vec::new();
    for c in it: s.chars()
        invariant
            it.seq() == s@,
            v@ == s@.take(it.index()),
    {
        v.push(c);
        assert(v@ =~= s@.take(it.index() + 1));
    }
    assert(v@ =~= s@);
    v
}

/// The characters of `needle` stand in `hay` from position `at` on.
fn matches_at(hay: &Vec<char>, needle: &Vec<char>, at: usize) -> (b: bool)
    requires
        at + needle.len() <= hay.len(),
    ensures
        b == (hay@.subrange(at as int, at + needle.len()) == needle@),
{
    let mut k: usize = 0;
    while k < needle.len()
        invariant
            k <= needle.len(),
            at + needle.len() <= hay.len(),
            forall|j: int| 0 <= j < k ==> hay@[at + j] == needle@[j],
        decreases needle.len() - k,
    {
        if hay[at + k] != needle[k] {
            assert(hay@.subrange(at as int, at + needle.len())[k as int] != needle@[k as int]);
            return false;
        }
        k = k + 1;
    }
    assert(hay@.subrange(at as int, at + needle.len()) =~= needle@);
    true
}

/// Whether `needle` occurs in `hay`.
pub fn text_contains(hay: &str, needle: &str) -> (b: bool)
    ensures
        b == contains_text(hay@, needle@),
        b <==> exists|i: int|
            0 <= i && i + needle@.len() <= hay@.len() && #[trigger] hay@.subrange(i, i + needle@.len())
                == needle@,
{
    let h = chars_of(hay);
    let n = chars_of(needle);
    if n.len() > h.len() {
        return false;
    }
    let last = h.len() - n.len();
    let mut at: usize = 0;
    loop
        invariant
            h@ == hay@,
            n@ == needle@,
            at <= last,
            last + n.len() == h.len(),
            forall|i: int| 0 <= i < at ==> #[trigger] hay@.subrange(i, i + needle@.len()) != needle@,
        decreases last - at,
    {
        if matches_at(&h, &n, at) {
            return true;
        }
        if at == last {
            return false;
        }
        at = at + 1;
    }
}

} // verus!
