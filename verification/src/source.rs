//! A parsed Solidity source as plain values: its top-level parts, the parts of its
//! contracts, and its comments.
use vstd::prelude::*;

use crate::text::{first_index, is_whitespace, is_ws, lemma_first_index_is, lemma_first_index_none};
use crate::model::{
    ContractDef, EnumDef, ErrorDef, EventDef, FunctionDef,
    Span, StructDef, TypeDef, VariableDef,
};

verus! {

/// A part of a contract.
#[derive(Clone, Debug, PartialEq, Eq)]
pub enum ContractMember {
    Function(FunctionDef),
    Event(EventDef),
    Error(ErrorDef),
    Struct(StructDef),
    Enum(EnumDef),
    Variable(VariableDef),
    Type(TypeDef),
    /// A part that no rule documents, such as a `using` directive.
    Other,
}

/// A top-level part of a source.
#[derive(Clone, Debug, PartialEq, Eq)]
pub enum SourceItem {
    Contract(ContractDef, Vec<ContractMember>),
    Function(FunctionDef),
    Event(EventDef),
    Error(ErrorDef),
    Struct(StructDef),
    Enum(EnumDef),
    Variable(VariableDef),
    Type(TypeDef),
    /// A part that no rule documents, such as a pragma or an import.
    Other,
}

/// A parsed source: its top-level parts in order.
#[derive(Clone, Debug, PartialEq, Eq)]
pub struct SourceUnit(pub Vec<SourceItem>);

/// The kind of a comment in the source.
#[derive(Clone, Copy, Debug, PartialEq, Eq, Structural)]
pub enum CommentKind {
    /// `// ...`
    Line,
    /// `/* ... */`
    Block,
    /// `/// ...`
    DocLine,
    /// `/** ... */`
    DocBlock,
}

/// A comment of the source, with its full text.
#[derive(Clone, Debug, PartialEq, Eq)]
pub struct RawComment {
    pub kind: CommentKind,
    pub loc: Span,
    pub text: String,
}

/// A raw comment as a mathematical value.
pub struct RawCommentView {
    pub kind: CommentKind,
    pub loc: Span,
    pub text: Seq<char>,
}

impl View for RawComment {
    type V = RawCommentView;

    open spec fn view(&self) -> RawCommentView {
        RawCommentView { kind: self.kind, loc: self.loc, text: self.text@ }
    }
}

/// The comment is a doc comment, which the doc comment parser reads.
pub open spec fn is_doc(c: RawCommentView) -> bool {
    c.kind is DocLine || c.kind is DocBlock
}

/// The index after the run of non-whitespace characters of `text` that starts at `from`,
/// where the run stops at `end` at the latest.
pub open spec fn run_end(text: Seq<char>, from: int, end: int) -> int {
    match first_index(end - from, |i: int| is_ws(text[from + i])) {
        Some(i) => from + i,
        None => end,
    }
}

/// The tag whose `@` stands at `at` can be cut out of the text by byte offsets: the run of
/// non-whitespace characters after the `@` (up to `end`) is empty or ends in an ASCII
/// character.
pub open spec fn tag_readable(text: Seq<char>, at: int, end: int) -> bool {
    let e = run_end(text, at + 1, end);
    e == at + 1 || text[e - 1] as u32 <= 127
}

/// Every character of `text` from `from` up to `at` is whitespace or `filler`, where, if
/// `split` holds, only those after the last newline before `at` count.
pub open spec fn line_clear(text: Seq<char>, from: int, at: int, filler: char, split: bool) -> bool {
    forall|k: int|
        #![trigger text[k]]
        from <= k < at && (split ==> forall|q: int| k < q < at ==> text[q] != '\n') ==> (is_ws(
            text[k],
        ) || text[k] == filler)
}

/// Every `@` between `from` and `end` that begins a line, after whitespace and `filler`, starts
/// a readable tag.
pub open spec fn tags_readable(text: Seq<char>, from: int, end: int, filler: char, split: bool) -> bool {
    forall|p: int|
        from <= p < end && text[p] == '@' && line_clear(text, from, p, filler, split)
            ==> #[trigger] tag_readable(text, p, end)
}

/// The byte offsets that the doc comment parser computes for a comment that starts at byte
/// `start` and has `n` characters (so at most `4 * n` bytes) fit in a `usize`.
pub open spec fn offsets_fit(start: int, n: int) -> bool {
    4 * (start + 4 * n) + 8 <= usize::MAX
}

/// The doc comment parser reads the comment without failing: a `///` comment starts with
/// `///`, a `/** */` comment has at least five characters and starts with `/**` and ends with
/// `*/`; a doc comment stands at a file location early enough for the offsets computed on it;
/// and each tag at the start of a line (of the comment's text past the slashes, or of a block's
/// text past whitespace and `*`) is readable.
pub open spec fn doc_readable(c: RawCommentView) -> bool {
    let t = c.text;
    match c.kind {
        CommentKind::DocLine => {
            &&& c.loc is File
            &&& offsets_fit(c.loc->1 as int, t.len() as int)
            &&& t.len() >= 3 && t[0] == '/' && t[1] == '/' && t[2] == '/'
            &&& tags_readable(t, 0, t.len() as int, '/', false)
        },
        CommentKind::DocBlock => {
            &&& c.loc is File
            &&& offsets_fit(c.loc->1 as int, t.len() as int)
            &&& t.len() >= 5 && t[0] == '/' && t[1] == '*' && t[2] == '*'
            &&& t[t.len() - 2] == '*' && t[t.len() - 1] == '/'
            &&& tags_readable(t, 3, t.len() - 2, '*', true)
        },
        _ => true,
    }
}

/// Every doc comment stands at a file location.
pub open spec fn docs_located(raw: Seq<RawCommentView>) -> bool {
    forall|i: int| 0 <= i < raw.len() && is_doc(#[trigger] raw[i]) ==> raw[i].loc is File
}

/// The doc comment overlaps the range from `start` to `end`, as the doc comment parser
/// decides it: it starts before `end` and does not end before `start`.
pub open spec fn in_range(c: RawCommentView, start: usize, end: usize) -> bool {
    is_doc(c) && !(c.loc->1 >= end || c.loc->2 < start)
}

/// Every doc comment that overlaps the range from `start` to `end` is readable.
pub open spec fn range_readable(raw: Seq<RawCommentView>, start: usize, end: usize) -> bool {
    forall|i: int| 0 <= i < raw.len() && in_range(#[trigger] raw[i], start, end) ==> doc_readable(raw[i])
}

/// The index after the run of non-whitespace characters of `text` from `from` up to `end`.
fn find_run_end(text: &str, from: usize, end: usize) -> (e: usize)
    requires
        from <= end <= text@.len(),
    ensures
        e == run_end(text@, from as int, end as int),
        from <= e <= end,
{
    let ghost p = |i: int| is_ws(text@[from + i]);
    let mut i = from;
    while i < end
        invariant
            from <= i <= end,
            end <= text@.len(),
            p == (|i: int| is_ws(text@[from + i])),
            forall|j: int| from <= j < i ==> !is_ws(#[trigger] text@[j]),
        decreases end - i,
    {
        if is_whitespace(text.get_char(i)) {
            proof {
                assert forall|j: int| 0 <= j < i - from implies !#[trigger] p(j) by {
                    assert(!is_ws(text@[from + j]));
                }
                lemma_first_index_is(end - from, p, i - from);
            }
            return i;
        }
        i = i + 1;
    }
    proof {
        assert forall|j: int| 0 <= j < end - from implies !#[trigger] p(j) by {
            assert(!is_ws(text@[from + j]));
        }
        lemma_first_index_none(end - from, p);
    }
    end
}

/// Whether the tag whose `@` stands at `at` is readable.
fn tag_readable_check(text: &str, at: usize, end: usize) -> (r: bool)
    requires
        at < end <= text@.len(),
    ensures
        r == tag_readable(text@, at as int, end as int),
{
    let e = find_run_end(text, at + 1, end);
    e == at + 1 || (text.get_char(e - 1) as u32) <= 127
}

/// Whether every `@` between `from` and `end` that begins a line starts a readable tag.
fn tags_readable_check(text: &str, from: usize, end: usize, filler: char, split: bool) -> (r: bool)
    requires
        from <= end <= text@.len(),
        filler == '/' || filler == '*',
    ensures
        r == tags_readable(text@, from as int, end as int, filler, split),
{
    let ghost t = text@;
    let mut leading = true;
    let mut j = from;
    while j < end
        invariant
            t == text@,
            from <= j <= end,
            end <= t.len(),
            filler == '/' || filler == '*',
            leading == line_clear(t, from as int, j as int, filler, split),
            forall|p: int|
                from <= p < j && t[p] == '@' && line_clear(t, from as int, p, filler, split)
                    ==> #[trigger] tag_readable(t, p, end as int),
        decreases end - j,
    {
        let c = text.get_char(j);
        assert(c == t[j as int]);
        if leading && c == '@' {
            if !tag_readable_check(text, j, end) {
                return false;
            }
            leading = false;
            assert(!line_clear(t, from as int, j + 1, filler, split)) by {
                assert(!(is_ws(t[j as int]) || t[j as int] == filler));
            }
        } else if split && c == '\n' {
            leading = true;
            assert forall|k: int|
                #![trigger t[k]]
                from <= k < j + 1 && (split ==> forall|q: int| k < q < j + 1 ==> t[q] != '\n')
                    implies (is_ws(t[k]) || t[k] == filler) by {
                if k < j {
                    assert(t[j as int] == '\n');
                }
            }
        } else if is_whitespace(c) || c == filler {
            assert(line_clear(t, from as int, j + 1, filler, split) == leading) by {
                if leading {
                    assert forall|k: int|
                        #![trigger t[k]]
                        from <= k < j + 1 && (split ==> forall|q: int| k < q < j + 1 ==> t[q] != '\n')
                            implies (is_ws(t[k]) || t[k] == filler) by {
                        if k < j {
                            assert(split ==> forall|q: int| k < q < j ==> t[q] != '\n');
                        }
                    }
                } else {
                    let k = choose|k: int|
                        #![trigger t[k]]
                        !(from <= k < j && (split ==> forall|q: int| k < q < j ==> t[q] != '\n')
                            ==> (is_ws(t[k]) || t[k] == filler));
                    assert(split ==> t[j as int] != '\n');
                    assert(split ==> forall|q: int| k < q < j + 1 ==> t[q] != '\n');
                }
            }
        } else {
            leading = false;
            assert(!line_clear(t, from as int, j + 1, filler, split)) by {
                assert(!(is_ws(t[j as int]) || t[j as int] == filler));
            }
        }
        j = j + 1;
    }
    true
}

/// Whether the offsets computed on a comment at byte `start` with `n` characters fit.
fn offsets_fit_check(start: usize, n: usize) -> (r: bool)
    ensures
        r == offsets_fit(start as int, n as int),
{
    match n.checked_mul(4) {
        None => false,
        Some(b) => match start.checked_add(b) {
            None => false,
            Some(x) => match x.checked_mul(4) {
                None => false,
                Some(y) => y.checked_add(8).is_some(),
            },
        },
    }
}

/// Whether the doc comment parser reads the comment without failing.
pub fn doc_readable_check(c: &RawComment) -> (r: bool)
    ensures
        r == doc_readable(c@),
{
    let text = c.text.as_str();
    let n = text.unicode_len();
    let start = match c.loc {
        Span::File(_, s, _) => s,
        _ => {
            return match c.kind {
                CommentKind::DocLine | CommentKind::DocBlock => false,
                _ => true,
            };
        },
    };
    match c.kind {
        CommentKind::DocLine => {
            offsets_fit_check(start, n) && n >= 3 && text.get_char(0) == '/' && text.get_char(1) == '/'
                && text.get_char(2) == '/' && tags_readable_check(text, 0, n, '/', false)
        },
        CommentKind::DocBlock => {
            offsets_fit_check(start, n) && n >= 5 && text.get_char(0) == '/' && text.get_char(1) == '*'
                && text.get_char(2) == '*' && text.get_char(n - 2) == '*' && text.get_char(n - 1) == '/'
                && tags_readable_check(text, 3, n - 2, '*', true)
        },
        _ => true,
    }
}

} // verus!
