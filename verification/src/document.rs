//! The root HTML document as the pipeline sees it: a byte buffer with one
//! verified patch operation, inserting a markup fragment at the end of the
//! document head. Every document patch a pipeline node produces goes
//! through `append_to_head`, so merge order alone decides the final bytes.

use vstd::prelude::*;
use vstd::string::*;

use crate::bytes::{find_first, match_at, splice};

verus! {

/// The closing tag that ends the document head.
pub open spec fn head_close() -> Seq<u8> {
    "</head>".spec_bytes()
}

/// `i` is the first position where `needle` occurs in `hay`.
pub open spec fn first_match_at(hay: Seq<u8>, needle: Seq<u8>, i: int) -> bool {
    match_at(hay, needle, i) && forall|j: int| 0 <= j < i ==> !match_at(hay, needle, j)
}

/// `doc` with `frag` inserted just before the first closing head tag; a
/// document without a head is left unchanged.
pub open spec fn spec_append_to_head(doc: Seq<u8>, frag: Seq<u8>) -> Seq<u8> {
    if exists|i: int| first_match_at(doc, head_close(), i) {
        let i = choose|i: int| first_match_at(doc, head_close(), i);
        doc.subrange(0, i) + frag + doc.subrange(i, doc.len() as int)
    } else {
        doc
    }
}

/// The root HTML document held in memory while pipeline outputs are merged
/// into it.
#[derive(Debug, PartialEq, Eq)]
pub struct HtmlDocument {
    pub bytes: Vec<u8>,
}

impl View for HtmlDocument {
    type V = Seq<u8>;

    open spec fn view(&self) -> Seq<u8> {
        self.bytes@
    }
}

/// Two first-occurrence positions of the same needle coincide.
proof fn lemma_first_match_unique(hay: Seq<u8>, needle: Seq<u8>, i: int, j: int)
    requires
        first_match_at(hay, needle, i),
        first_match_at(hay, needle, j),
    ensures
        i == j,
{
    if i < j {
        assert(!match_at(hay, needle, i));
    }
    if j < i {
        assert(!match_at(hay, needle, j));
    }
}

impl HtmlDocument {
    pub fn new(bytes: Vec<u8>) -> (r: HtmlDocument)
        ensures
            r@ == bytes@,
    {
        HtmlDocument { bytes }
    }

    /// Insert `frag` just before the first `</head>`; leave the document
    /// unchanged when it has no head to patch.
    pub fn append_to_head(&mut self, frag: &Vec<u8>)
        ensures
            final(self)@ == spec_append_to_head(old(self)@, frag@),
    {
        let needle = ("</head>").as_bytes_vec();
        match find_first(&self.bytes, &needle) {
            Some(i) => {
                proof {
                    assert(first_match_at(self@, head_close(), i as int));
                    let k = choose|k: int| first_match_at(self@, head_close(), k);
                    lemma_first_match_unique(self@, head_close(), i as int, k);
                }
                self.bytes = splice(&self.bytes, i, frag);
            },
            None => {
                proof {
                    assert(forall|k: int| !first_match_at(self@, head_close(), k));
                }
            },
        }
    }
}

} // verus!
