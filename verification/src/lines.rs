//! Line numbers of byte offsets in a source text, computed by the `line_col` crate.
use vstd::prelude::*;

use line_col::LineColLookup;
use vstd::string::StringSliceAdditionalSpecFns;

verus! {

#[verifier::external_type_specification]
#[verifier::external_body]
pub struct ExLineColLookup<'a>(LineColLookup<'a>);

/// The number of newline bytes in `s`.
pub open spec fn newline_count(s: Seq<u8>) -> nat
    decreases s.len(),
{
    if s.len() == 0 {
        0
    } else {
        newline_count(s.drop_last()) + if s.last() == 10u8 {
            1nat
        } else {
            0nat
        }
    }
}

/// The 1-based line on which byte offset `index` of `src` lies: one more than the number of
/// newlines before it.
pub open spec fn line_at(src: Seq<u8>, index: int) -> int {
    1 + newline_count(src.take(index)) as int
}

/// A source text with a lookup table of where its lines start.
pub struct LineLookup<'a> {
    content: &'a str,
    lookup: LineColLookup<'a>,
}

impl<'a> LineLookup<'a> {
    /// The bytes of the source text.
    pub closed spec fn source(&self) -> Seq<u8> {
        self.content.spec_bytes()
    }

    /// A lookup over `content`, made by `line_col::LineColLookup::new`; the claim is that the
    /// lookup then answers for `content`, which holds because nothing else can make one, and
    /// that the length of `content` fits in a `usize`, as that of any `str` does.
    #[verifier::external_body]
    pub fn new(content: &'a str) -> (r: LineLookup<'a>)
        ensures
            r.source() == content.spec_bytes(),
            r.source().len() <= usize::MAX,
    {
        LineLookup { content, lookup: LineColLookup::new(content) }
    }

    /// The line of byte offset `index`, from `line_col::LineColLookup::get`: its source
    /// collects the offsets just after each `'\n'` (and 0) and finds by binary search how
    /// many of them are at most `index`, which is one more than the number of newline bytes
    /// before `index`. It panics where `index` exceeds the length, which `requires` excludes.
    #[verifier::external_body]
    pub fn line(&self, index: usize) -> (r: usize)
        requires
            index <= self.source().len(),
        ensures
            r == line_at(self.source(), index as int),
    {
        self.lookup.get(index).0
    }

    /// The length of the source text in bytes.
    pub fn len(&self) -> (r: usize)
        requires
            self.source().len() <= usize::MAX,
        ensures
            r == self.source().len(),
    {
        self.content.len()
    }
}

} // verus!
