//! Verified helpers on byte vectors: equality, prefix tests, substring
//! search and splicing. The document pipeline and the server's router are
//! built on these.

use vstd::prelude::*;

verus! {

/// `needle` occurs in `hay` starting at position `i`.
pub open spec fn match_at(hay: Seq<u8>, needle: Seq<u8>, i: int) -> bool {
    0 <= i && i + needle.len() <= hay.len() && hay.subrange(i, i + needle.len() as int)
        == needle
}

/// `p` is a prefix of `s`.
pub open spec fn is_prefix_of(p: Seq<u8>, s: Seq<u8>) -> bool {
    p.len() <= s.len() && s.subrange(0, p.len() as int) == p
}

/// `p` is a suffix of `s`.
pub open spec fn is_suffix_of(p: Seq<u8>, s: Seq<u8>) -> bool {
    p.len() <= s.len() && s.subrange(s.len() - p.len(), s.len() as int) == p
}

/// Does `s` end with `p`?
pub fn ends_with(s: &Vec<u8>, p: &Vec<u8>) -> (r: bool)
    ensures
        r == is_suffix_of(p@, s@),
{
    if p.len() > s.len() {
        return false;
    }
    let slen = s.len();
    let off = slen - p.len();
    let n = p.len();
    let mut i: usize = 0;
    while i < n
        invariant
            n == p@.len() <= s@.len(),
            off == s@.len() - p@.len(),
            off + n == slen == s@.len(),
            i <= n,
            forall|j: int| 0 <= j < i ==> s@[off + j] == p@[j],
        decreases n - i,
    {
        if s[off + i] != p[i] {
            assert(s@.subrange(s@.len() - p@.len(), s@.len() as int)[i as int] != p@[i as int]);
            return false;
        }
        i += 1;
    }
    assert(s@.subrange(s@.len() - p@.len(), s@.len() as int) =~= p@);
    true
}

/// Byte-for-byte equality of two vectors.
pub fn bytes_eq(a: &Vec<u8>, b: &Vec<u8>) -> (r: bool)
    ensures
        r == (a@ == b@),
{
    if a.len() != b.len() {
        assert(a@ != b@) by {
            assert(a@.len() != b@.len());
        }
        return false;
    }
    let n = a.len();
    let mut i: usize = 0;
    while i < n
        invariant
            n == a@.len() == b@.len(),
            i <= n,
            forall|j: int| 0 <= j < i ==> a@[j] == b@[j],
        decreases n - i,
    {
        if a[i] != b[i] {
            return false;
        }
        i += 1;
    }
    assert(a@ =~= b@);
    true
}

/// Does `s` start with `p`?
pub fn starts_with(s: &Vec<u8>, p: &Vec<u8>) -> (r: bool)
    ensures
        r == is_prefix_of(p@, s@),
{
    if p.len() > s.len() {
        return false;
    }
    let n = p.len();
    let mut i: usize = 0;
    while i < n
        invariant
            n == p@.len() <= s@.len(),
            i <= n,
            forall|j: int| 0 <= j < i ==> s@[j] == p@[j],
        decreases n - i,
    {
        if s[i] != p[i] {
            assert(s@.subrange(0, p@.len() as int)[i as int] != p@[i as int]);
            return false;
        }
        i += 1;
    }
    assert(s@.subrange(0, p@.len() as int) =~= p@);
    true
}

/// Does `needle` occur in `hay` at position `at`?
fn matches_at(hay: &Vec<u8>, needle: &Vec<u8>, at: usize) -> (r: bool)
    requires
        at + needle@.len() <= hay@.len(),
    ensures
        r == match_at(hay@, needle@, at as int),
{
    let n = needle.len();
    let hn = hay.len();
    let mut i: usize = 0;
    while i < n
        invariant
            at + n <= hn == hay@.len(),
            n == needle@.len(),
            i <= n,
            forall|j: int| 0 <= j < i ==> hay@[at + j] == needle@[j],
        decreases n - i,
    {
        if hay[at + i] != needle[i] {
            assert(hay@.subrange(at as int, at + needle@.len() as int)[i as int]
                != needle@[i as int]);
            return false;
        }
        i += 1;
    }
    assert(hay@.subrange(at as int, at + needle@.len() as int) =~= needle@);
    true
}

/// First occurrence of `needle` in `hay`: `Some(i)` for the least `i` with a
/// match at `i`, `None` when no position matches.
pub fn find_first(hay: &Vec<u8>, needle: &Vec<u8>) -> (r: Option<usize>)
    ensures
        match r {
            Some(i) => match_at(hay@, needle@, i as int) && forall|j: int|
                0 <= j < i ==> !match_at(hay@, needle@, j),
            None => forall|j: int| !match_at(hay@, needle@, j),
        },
{
    if needle.len() > hay.len() {
        return None;
    }
    if needle.len() == 0 {
        assert(hay@.subrange(0, 0) =~= needle@);
        return Some(0);
    }
    let hlen = hay.len();
    let last = hay.len() - needle.len();
    let mut i: usize = 0;
    while i <= last
        invariant
            1 <= needle@.len() <= hay@.len(),
            last == hay@.len() - needle@.len(),
            last < hlen == hay@.len(),
            i <= last + 1,
            forall|j: int| 0 <= j < i ==> !match_at(hay@, needle@, j),
        decreases last - i + 1,
    {
        if matches_at(hay, needle, i) {
            return Some(i);
        }
        i += 1;
    }
    assert(forall|j: int| j > last ==> !match_at(hay@, needle@, j));
    None
}

/// `doc` with `frag` spliced in at position `at`.
pub fn splice(doc: &Vec<u8>, at: usize, frag: &Vec<u8>) -> (r: Vec<u8>)
    requires
        at <= doc@.len(),
    ensures
        r@ == doc@.subrange(0, at as int) + frag@ + doc@.subrange(
            at as int,
            doc@.len() as int,
        ),
{
    let mut out: Vec<u8> = Vec::new();
    let mut i: usize = 0;
    while i < at
        invariant
            at <= doc@.len(),
            i <= at,
            out@ =~= doc@.subrange(0, i as int),
        decreases at - i,
    {
        out.push(doc[i]);
        i += 1;
    }
    let mut k: usize = 0;
    while k < frag.len()
        invariant
            at <= doc@.len(),
            k <= frag@.len(),
            out@ =~= doc@.subrange(0, at as int) + frag@.subrange(0, k as int),
        decreases frag@.len() - k,
    {
        out.push(frag[k]);
        k += 1;
    }
    let mut j: usize = at;
    while j < doc.len()
        invariant
            at <= j <= doc@.len(),
            out@ =~= doc@.subrange(0, at as int) + frag@ + doc@.subrange(at as int, j as int),
        decreases doc@.len() - j,
    {
        out.push(doc[j]);
        j += 1;
    }
    assert(out@ =~= doc@.subrange(0, at as int) + frag@ + doc@.subrange(
        at as int,
        doc@.len() as int,
    ));
    out
}

/// The concatenation of two byte vectors.
pub fn concat_bytes(a: &Vec<u8>, b: &Vec<u8>) -> (r: Vec<u8>)
    ensures
        r@ == a@ + b@,
{
    let mut out: Vec<u8> = Vec::new();
    let mut i: usize = 0;
    while i < a.len()
        invariant
            i <= a@.len(),
            out@ =~= a@.subrange(0, i as int),
        decreases a@.len() - i,
    {
        out.push(a[i]);
        i += 1;
    }
    let mut j: usize = 0;
    while j < b.len()
        invariant
            j <= b@.len(),
            out@ =~= a@ + b@.subrange(0, j as int),
        decreases b@.len() - j,
    {
        out.push(b[j]);
        j += 1;
    }
    assert(out@ =~= a@ + b@);
    out
}

/// The suffix of `s` from position `from` on.
pub fn suffix_from(s: &Vec<u8>, from: usize) -> (r: Vec<u8>)
    requires
        from <= s@.len(),
    ensures
        r@ == s@.subrange(from as int, s@.len() as int),
{
    let mut out: Vec<u8> = Vec::new();
    let mut i: usize = from;
    while i < s.len()
        invariant
            from <= i <= s@.len(),
            out@ =~= s@.subrange(from as int, i as int),
        decreases s@.len() - i,
    {
        out.push(s[i]);
        i += 1;
    }
    assert(out@ =~= s@.subrange(from as int, s@.len() as int));
    out
}

} // verus!
