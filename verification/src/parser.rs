//! Building documented items from a parsed source: each definition gets the natspec comments
//! that stand between the previous definition and its own start.
use vstd::prelude::*;

use crate::comments::{comment_from_text, natspec_views, Comments, Natspec, NatspecView};
use crate::items::{ParseItem, ParseSource};
use crate::model::{ContractDef, Span};
use crate::solang::{doc_tags, parse_doc_tags, raw_views, tag_pairs};
use crate::source::{
    doc_readable, doc_readable_check, docs_located, in_range, range_readable, CommentKind,
    ContractMember, RawComment, RawCommentView, SourceItem, SourceUnit,
};

verus! {

/// The natspec comments that doc comment tags make: those whose tag is a natspec tag, in
/// order.
pub open spec fn natspecs_from_tags(tags: Seq<(Seq<char>, Seq<char>)>) -> Seq<NatspecView>
    decreases tags.len(),
{
    if tags.len() == 0 {
        Seq::empty()
    } else {
        let before = natspecs_from_tags(tags.drop_last());
        match comment_from_text(tags.last().0, tags.last().1) {
            Some(c) => before.push(c),
            None => before,
        }
    }
}

/// The natspec comments of the doc comments among `raw` that overlap the range from `start`
/// to `end`.
pub open spec fn docs_between(raw: Seq<RawCommentView>, start: usize, end: usize) -> Seq<
    NatspecView,
> {
    natspecs_from_tags(doc_tags(raw, start, end).flatten())
}

/// An item without nested items, as it is built: its definition and comments.
pub struct LeafShape {
    pub source: ParseSource,
    pub comments: Seq<NatspecView>,
}

/// An item as it is built: its definition, comments, and nested items.
pub struct ItemShape {
    pub source: ParseSource,
    pub comments: Seq<NatspecView>,
    pub children: Seq<LeafShape>,
}

/// The shape of an item.
pub open spec fn shape_of(item: ParseItem) -> ItemShape {
    ItemShape {
        source: item.source,
        comments: item.comments@,
        children: item.children@.map_values(
            |c: ParseItem| LeafShape { source: c.source, comments: c.comments@ },
        ),
    }
}

/// The item has nested items, and those have none.
pub open spec fn two_levels(item: ParseItem) -> bool {
    forall|j: int| 0 <= j < item.children@.len() ==> (#[trigger] item.children@[j]).children@.len() == 0
}

/// The definition that a part of a contract holds, if it holds one that rules check.
pub open spec fn member_source(m: ContractMember) -> Option<ParseSource> {
    match m {
        ContractMember::Function(d) => Some(ParseSource::Function(d)),
        ContractMember::Event(d) => Some(ParseSource::Event(d)),
        ContractMember::Error(d) => Some(ParseSource::Error(d)),
        ContractMember::Struct(d) => Some(ParseSource::Struct(d)),
        ContractMember::Enum(d) => Some(ParseSource::Enum(d)),
        ContractMember::Variable(d) => Some(ParseSource::Variable(d)),
        ContractMember::Type(d) => Some(ParseSource::Type(d)),
        ContractMember::Other => None,
    }
}

/// The definition that a top-level part holds, if it holds one that rules check.
pub open spec fn part_source(p: SourceItem) -> Option<ParseSource> {
    match p {
        SourceItem::Contract(d, _) => Some(ParseSource::Contract(d)),
        SourceItem::Function(d) => Some(ParseSource::Function(d)),
        SourceItem::Event(d) => Some(ParseSource::Event(d)),
        SourceItem::Error(d) => Some(ParseSource::Error(d)),
        SourceItem::Struct(d) => Some(ParseSource::Struct(d)),
        SourceItem::Enum(d) => Some(ParseSource::Enum(d)),
        SourceItem::Variable(d) => Some(ParseSource::Variable(d)),
        SourceItem::Type(d) => Some(ParseSource::Type(d)),
        SourceItem::Other => None,
    }
}

/// Every definition among the parts of a contract stands at a file location.
pub open spec fn members_located(ms: Seq<ContractMember>) -> bool {
    forall|j: int|
        0 <= j < ms.len() ==> (#[trigger] member_source(ms[j]) matches Some(s) ==> s.spec_loc() is File)
}

/// Every definition among the top-level parts, and the parts of contracts, stands at a file
/// location.
pub open spec fn parts_located(ps: Seq<SourceItem>) -> bool {
    forall|j: int|
        0 <= j < ps.len() ==> {
            &&& (#[trigger] part_source(ps[j]) matches Some(s) ==> s.spec_loc() is File)
            &&& (ps[j] matches SourceItem::Contract(_, ms) ==> members_located(ms@))
        }
}

/// The items that the parts of a contract give, and where the next item's comments may start,
/// when comments may start at `doc_start`: each definition gets the comments from there to
/// its start, and comments for the next one may start at its end.
pub open spec fn members_walk(ms: Seq<ContractMember>, raw: Seq<RawCommentView>, doc_start: usize) -> (
    Seq<LeafShape>,
    usize,
)
    decreases ms.len(),
{
    if ms.len() == 0 {
        (Seq::empty(), doc_start)
    } else {
        let (before, d) = members_walk(ms.drop_last(), raw, doc_start);
        match member_source(ms.last()) {
            Some(s) => (
                before.push(
                    LeafShape { source: s, comments: docs_between(raw, d, s.spec_loc()->1) },
                ),
                s.spec_loc()->2,
            ),
            None => (before, d),
        }
    }
}

/// The items that the top-level parts give, and where the next item's comments may start,
/// when comments may start at `doc_start`. A contract gets the comments up to its start, its
/// parts are walked from its start on, and comments for the next item may start at its end.
pub open spec fn parts_walk(ps: Seq<SourceItem>, raw: Seq<RawCommentView>, doc_start: usize) -> (
    Seq<ItemShape>,
    usize,
)
    decreases ps.len(),
{
    if ps.len() == 0 {
        (Seq::empty(), doc_start)
    } else {
        let (before, d) = parts_walk(ps.drop_last(), raw, doc_start);
        match ps.last() {
            SourceItem::Contract(c, ms) => (
                before.push(
                    ItemShape {
                        source: ParseSource::Contract(c),
                        comments: docs_between(raw, d, c.loc->1),
                        children: members_walk(ms@, raw, c.loc->1).0,
                    },
                ),
                c.loc->2,
            ),
            SourceItem::Other => (before, d),
            p => {
                let s = part_source(p).unwrap();
                (
                    before.push(
                        ItemShape {
                            source: s,
                            comments: docs_between(raw, d, s.spec_loc()->1),
                            children: Seq::empty(),
                        },
                    ),
                    s.spec_loc()->2,
                )
            },
        }
    }
}

/// The doc comments that the definition at position `j` among the parts of a contract reads
/// are readable, when comments may start at `doc_start`.
pub open spec fn member_readable_at(
    ms: Seq<ContractMember>,
    raw: Seq<RawCommentView>,
    doc_start: usize,
    j: int,
) -> bool {
    match member_source(ms[j]) {
        Some(s) => range_readable(raw, members_walk(ms.take(j), raw, doc_start).1, s.spec_loc()->1),
        None => true,
    }
}

/// The doc comments that the definitions among the parts of a contract read are readable.
pub open spec fn members_readable(ms: Seq<ContractMember>, raw: Seq<RawCommentView>, doc_start: usize) -> bool {
    forall|j: int| 0 <= j < ms.len() ==> #[trigger] member_readable_at(ms, raw, doc_start, j)
}

/// The doc comments that the top-level part at position `j` reads (for a contract, also
/// those its parts read) are readable, when comments may start at `doc_start`.
pub open spec fn part_readable_at(
    ps: Seq<SourceItem>,
    raw: Seq<RawCommentView>,
    doc_start: usize,
    j: int,
) -> bool {
    let d = parts_walk(ps.take(j), raw, doc_start).1;
    match ps[j] {
        SourceItem::Contract(c, ms) => range_readable(raw, d, c.loc->1) && members_readable(
            ms@,
            raw,
            c.loc->1,
        ),
        SourceItem::Other => true,
        p => range_readable(raw, d, part_source(p).unwrap().spec_loc()->1),
    }
}

/// The doc comments that the top-level parts and the parts of contracts read are readable.
pub open spec fn parts_readable(ps: Seq<SourceItem>, raw: Seq<RawCommentView>, doc_start: usize) -> bool {
    forall|j: int| 0 <= j < ps.len() ==> #[trigger] part_readable_at(ps, raw, doc_start, j)
}

/// Why building items failed.
#[derive(Clone, Debug, PartialEq, Eq)]
pub enum VisitError {
    /// A definition stands at this location, which is no file location.
    Location(Span),
    /// The doc comment at this location, which a definition reads, cannot be read.
    DocComment(Span),
}

/// The definition that a part of a contract holds, if rules check it.
fn member_into_source(m: ContractMember) -> (r: Option<ParseSource>)
    ensures
        r == member_source(m),
{
    match m {
        ContractMember::Function(d) => Some(ParseSource::Function(d)),
        ContractMember::Event(d) => Some(ParseSource::Event(d)),
        ContractMember::Error(d) => Some(ParseSource::Error(d)),
        ContractMember::Struct(d) => Some(ParseSource::Struct(d)),
        ContractMember::Enum(d) => Some(ParseSource::Enum(d)),
        ContractMember::Variable(d) => Some(ParseSource::Variable(d)),
        ContractMember::Type(d) => Some(ParseSource::Type(d)),
        ContractMember::Other => None,
    }
}

/// Builds documented items from a parsed source, in source order.
pub struct Parser {
    comments: Vec<RawComment>,
    doc_start: usize,
    items: Vec<ParseItem>,
}

impl Parser {
    /// The comments of the source.
    pub closed spec fn raw(&self) -> Seq<RawCommentView> {
        raw_views(self.comments@)
    }

    /// Where the comments of the next definition may start.
    pub closed spec fn next_doc_start(&self) -> usize {
        self.doc_start
    }

    /// The items built so far.
    pub closed spec fn built(&self) -> Seq<ParseItem> {
        self.items@
    }

    /// Every doc comment of the parser stands at a file location.
    pub closed spec fn wf(&self) -> bool {
        docs_located(self.raw())
    }

    /// A parser for a source with comments `comments`.
    pub fn new(comments: Vec<RawComment>) -> (r: Parser)
        requires
            docs_located(raw_views(comments@)),
        ensures
            r.wf(),
            r.raw() == raw_views(comments@),
            r.next_doc_start() == 0,
            r.built() == Seq::<ParseItem>::empty(),
    {
        Parser { comments, doc_start: 0, items: Vec::new() }
    }

    /// The items built.
    pub fn items(self) -> (r: Vec<ParseItem>)
        ensures
            r@ == self.built(),
    {
        self.items
    }

    /// The items built.
    pub fn items_ref(&self) -> (r: &Vec<ParseItem>)
        ensures
            r@ == self.built(),
    {
        &self.items
    }

    /// The natspec comments of the doc comments from `start` to `end`; fails with the location
    /// of the first doc comment in that range that the doc comment parser cannot read.
    fn docs(&self, start: usize, end: usize) -> (r: Result<Comments, Span>)
        requires
            self.wf(),
        ensures
            match r {
                Ok(c) => range_readable(self.raw(), start, end) && c@ == docs_between(
                    self.raw(),
                    start,
                    end,
                ),
                Err(_) => !range_readable(self.raw(), start, end),
            },
    {
        let n = self.comments.len();
        for i in 0..n
            invariant
                n == self.comments@.len(),
                self.wf(),
                forall|j: int|
                    0 <= j < i && in_range(#[trigger] self.raw()[j], start, end) ==> doc_readable(
                        self.raw()[j],
                    ),
        {
            let c = &self.comments[i];
            assert(self.raw()[i as int] == c@);
            let doc = match c.kind {
                CommentKind::DocLine | CommentKind::DocBlock => true,
                _ => false,
            };
            if doc {
                match c.loc {
                    Span::File(_, s, e) => {
                        if !(s >= end || e < start) && !doc_readable_check(c) {
                            return Err(c.loc);
                        }
                    },
                    _ => {},
                }
            }
        }
        let mut blocks = parse_doc_tags(&self.comments, start, end);
        let ghost all = blocks@.map_values(|b: Vec<(String, String)>| tag_pairs(b@));
        let mut out: Vec<Natspec> = Vec::new();
        let ghost mut k: int = 0;
        while blocks.len() > 0
            invariant
                all == doc_tags(self.raw(), start, end),
                0 <= k <= all.len(),
                blocks@.len() == all.len() - k,
                forall|i: int| 0 <= i < blocks@.len() ==> tag_pairs(#[trigger] blocks@[i]@) == all[k + i],
                natspec_views(out@) == natspecs_from_tags(all.take(k).flatten()),
            decreases blocks@.len(),
        {
            let mut tags = blocks.remove(0);
            let ghost block = all[k];
            let ghost done = all.take(k).flatten();
            assert(tag_pairs(tags@) == block);
            let ghost mut m: int = 0;
            while tags.len() > 0
                invariant
                    0 <= m <= block.len(),
                    tags@.len() == block.len() - m,
                    forall|i: int| 0 <= i < tags@.len() ==> (#[trigger] tags@[i].0@, tags@[i].1@) == block[m + i],
                    natspec_views(out@) == natspecs_from_tags(done + block.take(m)),
                decreases tags@.len(),
            {
                let (tag, value) = tags.remove(0);
                proof {
                    assert((tag@, value@) == block[m]);
                    assert((done + block.take(m + 1)).drop_last() =~= done + block.take(m));
                    assert((done + block.take(m + 1)).last() == block[m]);
                }
                match Natspec::from_doc_comment(tag.as_str(), value) {
                    Some(c) => {
                        let ghost before = out@;
                        out.push(c);
                        assert(natspec_views(out@) =~= natspec_views(before).push(c@));
                    },
                    None => {},
                }
                proof {
                    m = m + 1;
                }
            }
            proof {
                assert(block.take(m) =~= block);
                assert(all.take(k + 1) =~= all.take(k).push(block));
                all.take(k).lemma_flatten_push(block);
                k = k + 1;
            }
        }
        assert(all.take(k) =~= all);
        Ok(Comments(out))
    }

    /// Builds the items of the parts of a contract, whose comments may start at
    /// `doc_start`; fails at the first definition that is at no file location or whose doc
    /// comments cannot be read.
    fn visit_members(&self, members: Vec<ContractMember>, doc_start: usize) -> (r: Result<
        Vec<ParseItem>,
        VisitError,
    >)
        requires
            self.wf(),
        ensures
            match r {
                Ok(items) => {
                    &&& members_located(members@)
                    &&& members_readable(members@, self.raw(), doc_start)
                    &&& items@.map_values(
                        |c: ParseItem| LeafShape { source: c.source, comments: c.comments@ },
                    ) == members_walk(members@, self.raw(), doc_start).0
                    &&& forall|j: int|
                        0 <= j < items@.len() ==> (#[trigger] items@[j]).children@.len() == 0
                },
                Err(VisitError::Location(_)) => !members_located(members@),
                Err(VisitError::DocComment(_)) => !members_readable(members@, self.raw(), doc_start),
            },
    {
        let ghost all = members@;
        let ghost raw = self.raw();
        let mut rest = members;
        let mut out: Vec<ParseItem> = Vec::new();
        let mut start = doc_start;
        let ghost mut k: int = 0;
        while rest.len() > 0
            invariant
                self.wf(),
                raw == self.raw(),
                all == members@,
                0 <= k <= all.len(),
                rest@ == all.skip(k),
                members_located(all.take(k)),
                members_readable(all.take(k), raw, doc_start),
                out@.map_values(|c: ParseItem| LeafShape { source: c.source, comments: c.comments@ })
                    == members_walk(all.take(k), raw, doc_start).0,
                start == members_walk(all.take(k), raw, doc_start).1,
                forall|j: int| 0 <= j < out@.len() ==> (#[trigger] out@[j]).children@.len() == 0,
            decreases rest@.len(),
        {
            let m = rest.remove(0);
            proof {
                assert(m == all[k]);
                assert(all.take(k + 1).drop_last() =~= all.take(k));
                assert(all.take(k + 1).last() == all[k]);
                assert(all.take(k + 1).take(k) =~= all.take(k));
            }
            match member_into_source(m) {
                Some(source) => {
                    match source.loc() {
                        Span::File(_, s, e) => {
                            let comments = match self.docs(start, s) {
                                Ok(c) => c,
                                Err(l) => {
                                    assert(!member_readable_at(all, raw, doc_start, k)) by {
                                        assert(all.take(k) == all.take(k + 1).take(k));
                                    }
                                    return Err(VisitError::DocComment(l));
                                },
                            };
                            assert(member_readable_at(all.take(k + 1), raw, doc_start, k));
                            let mut item = ParseItem::new(source);
                            item.comments = comments;
                            let ghost before = out@;
                            out.push(item);
                            assert(out@.map_values(
                                |c: ParseItem| LeafShape { source: c.source, comments: c.comments@ },
                            ) =~= before.map_values(
                                |c: ParseItem| LeafShape { source: c.source, comments: c.comments@ },
                            ).push(LeafShape { source: item.source, comments: item.comments@ }));
                            start = e;
                        },
                        l => {
                            assert(!members_located(all)) by {
                                assert(member_source(all[k]) matches Some(s) && !(s.spec_loc() is File));
                            }
                            return Err(VisitError::Location(l));
                        },
                    }
                },
                None => {
                    assert(member_readable_at(all.take(k + 1), raw, doc_start, k));
                },
            }
            proof {
                assert forall|j: int| 0 <= j < k + 1 implies (#[trigger] member_source(all.take(k + 1)[j]) matches Some(s) ==> s.spec_loc() is File) by {
                    if j < k {
                        assert(all.take(k + 1)[j] == all.take(k)[j]);
                    }
                }
                assert forall|j: int| 0 <= j < k + 1 implies #[trigger] member_readable_at(all.take(k + 1), raw, doc_start, j) by {
                    if j < k {
                        assert(all.take(k + 1)[j] == all.take(k)[j]);
                        assert(all.take(k + 1).take(j) =~= all.take(k).take(j));
                        assert(member_readable_at(all.take(k), raw, doc_start, j));
                    }
                }
                k = k + 1;
            }
        }
        assert(all.take(k) =~= all);
        Ok(out)
    }

    /// Builds the items of the top-level parts of `source_unit`, after the items built so
    /// far; fails at the first definition that is at no file location or whose doc comments
    /// cannot be read.
    pub fn visit_source_unit(&mut self, source_unit: SourceUnit) -> (r: Result<(), VisitError>)
        requires
            old(self).wf(),
            forall|j: int| 0 <= j < old(self).built().len() ==> two_levels(#[trigger] old(self).built()[j]),
        ensures
            final(self).wf(),
            final(self).raw() == old(self).raw(),
            match r {
                Ok(()) => {
                    let (shapes, next) = parts_walk(source_unit.0@, old(self).raw(), old(self).next_doc_start());
                    &&& parts_located(source_unit.0@)
                    &&& parts_readable(source_unit.0@, old(self).raw(), old(self).next_doc_start())
                    &&& final(self).built().map_values(|i: ParseItem| shape_of(i)) == old(self).built().map_values(|i: ParseItem| shape_of(i)) + shapes
                    &&& final(self).next_doc_start() == next
                    &&& forall|j: int| 0 <= j < final(self).built().len() ==> two_levels(#[trigger] final(self).built()[j])
                },
                Err(VisitError::Location(_)) => !parts_located(source_unit.0@),
                Err(VisitError::DocComment(_)) => !parts_readable(source_unit.0@, old(self).raw(), old(self).next_doc_start()),
            },
    {
        let ghost all = source_unit.0@;
        let ghost raw = self.raw();
        let ghost start0 = self.doc_start;
        let ghost built0 = self.items@.map_values(|i: ParseItem| shape_of(i));
        let mut rest = source_unit.0;
        let ghost mut k: int = 0;
        assert(all.take(0) =~= Seq::<SourceItem>::empty());
        assert forall|j: int| 0 <= j < self.items@.len() implies two_levels(#[trigger] self.items@[j]) by {
            assert(self.items@[j] == old(self).built()[j]);
        }
        while rest.len() > 0
            invariant
                self.wf(),
                raw == self.raw(),
                raw == old(self).raw(),
                all == source_unit.0@,
                start0 == old(self).next_doc_start(),
                built0 == old(self).built().map_values(|i: ParseItem| shape_of(i)),
                0 <= k <= all.len(),
                rest@ == all.skip(k),
                parts_located(all.take(k)),
                parts_readable(all.take(k), raw, start0),
                self.items@.map_values(|i: ParseItem| shape_of(i)) == built0 + parts_walk(all.take(k), raw, start0).0,
                self.doc_start == parts_walk(all.take(k), raw, start0).1,
                forall|j: int| 0 <= j < self.items@.len() ==> two_levels(#[trigger] self.items@[j]),
            decreases rest@.len(),
        {
            let part = rest.remove(0);
            proof {
                assert(part == all[k]);
                assert(all.take(k + 1).drop_last() =~= all.take(k));
                assert(all.take(k + 1).last() == all[k]);
                assert(all.take(k + 1).take(k) =~= all.take(k));
            }
            let ghost before = self.items@;
            let ghost prev = parts_walk(all.take(k), raw, start0);
            assert(self.doc_start == prev.1);
            match part {
                SourceItem::Contract(def, members) => {
                    match def.loc {
                        Span::File(_, s, e) => {
                            let comments = match self.docs(self.doc_start, s) {
                                Ok(c) => c,
                                Err(l) => {
                                    assert(!part_readable_at(all, raw, start0, k)) by {
                                        assert(all.take(k) == all.take(k + 1).take(k));
                                    }
                                    return Err(VisitError::DocComment(l));
                                },
                            };
                            let ghost ms = members@;
                            let visited = self.visit_members(members, s);
                            let children = match visited {
                                Ok(c) => c,
                                Err(VisitError::Location(l)) => {
                                    assert(!parts_located(all)) by {
                                        assert(all[k] matches SourceItem::Contract(_, m) && !members_located(m@));
                                    }
                                    return Err(VisitError::Location(l));
                                },
                                Err(VisitError::DocComment(l)) => {
                                    assert(!part_readable_at(all, raw, start0, k));
                                    return Err(VisitError::DocComment(l));
                                },
                            };
                            assert(part_readable_at(all.take(k + 1), raw, start0, k));
                            let mut item = ParseItem::new(ParseSource::Contract(def));
                            item.comments = comments;
                            item.children = children;
                            self.items.push(item);
                            self.doc_start = e;
                            assert(self.items@.map_values(|i: ParseItem| shape_of(i)) =~= before.map_values(|i: ParseItem| shape_of(i)).push(shape_of(item)));
                            assert(shape_of(item) == ItemShape {
                                source: ParseSource::Contract(def),
                                comments: docs_between(raw, prev.1, s),
                                children: members_walk(ms, raw, s).0,
                            });
                            assert(parts_walk(all.take(k + 1), raw, start0) == (prev.0.push(shape_of(item)), e));
                        },
                        l => {
                            assert(!parts_located(all)) by {
                                assert(part_source(all[k]) matches Some(s) && !(s.spec_loc() is File));
                            }
                            return Err(VisitError::Location(l));
                        },
                    }
                },
                SourceItem::Other => {
                    assert(parts_walk(all.take(k + 1), raw, start0) == prev);
                    assert(part_readable_at(all.take(k + 1), raw, start0, k));
                },
                other => {
                    let source = match other {
                        SourceItem::Function(d) => ParseSource::Function(d),
                        SourceItem::Event(d) => ParseSource::Event(d),
                        SourceItem::Error(d) => ParseSource::Error(d),
                        SourceItem::Struct(d) => ParseSource::Struct(d),
                        SourceItem::Enum(d) => ParseSource::Enum(d),
                        SourceItem::Variable(d) => ParseSource::Variable(d),
                        SourceItem::Type(d) => ParseSource::Type(d),
                        SourceItem::Contract(d, _) => ParseSource::Contract(d),
                        SourceItem::Other => ParseSource::Contract(ContractDef { loc: Span::Implicit, ty: crate::model::ContractKind::Contract(Span::Implicit), name: None }),
                    };
                    assert(part_source(all[k]) == Some(source));
                    match source.loc() {
                        Span::File(_, s, e) => {
                            let comments = match self.docs(self.doc_start, s) {
                                Ok(c) => c,
                                Err(l) => {
                                    assert(!part_readable_at(all, raw, start0, k)) by {
                                        assert(all.take(k) == all.take(k + 1).take(k));
                                    }
                                    return Err(VisitError::DocComment(l));
                                },
                            };
                            assert(part_readable_at(all.take(k + 1), raw, start0, k));
                            let mut item = ParseItem::new(source);
                            item.comments = comments;
                            self.items.push(item);
                            self.doc_start = e;
                            assert(self.items@.map_values(|i: ParseItem| shape_of(i)) =~= before.map_values(|i: ParseItem| shape_of(i)).push(shape_of(item)));
                            assert(shape_of(item).children =~= Seq::<LeafShape>::empty());
                            assert(parts_walk(all.take(k + 1), raw, start0) == (prev.0.push(shape_of(item)), e));
                        },
                        l => {
                            assert(!parts_located(all)) by {
                                assert(part_source(all[k]) matches Some(s) && !(s.spec_loc() is File));
                            }
                            return Err(VisitError::Location(l));
                        },
                    }
                },
            }
            proof {
                assert forall|j: int| 0 <= j < k + 1 implies {
                    &&& (#[trigger] part_source(all.take(k + 1)[j]) matches Some(s) ==> s.spec_loc() is File)
                    &&& (all.take(k + 1)[j] matches SourceItem::Contract(_, ms) ==> members_located(ms@))
                } by {
                    if j < k {
                        assert(all.take(k + 1)[j] == all.take(k)[j]);
                    }
                }
                assert forall|j: int| 0 <= j < k + 1 implies #[trigger] part_readable_at(all.take(k + 1), raw, start0, j) by {
                    if j < k {
                        assert(all.take(k + 1)[j] == all.take(k)[j]);
                        assert(all.take(k + 1).take(j) =~= all.take(k).take(j));
                        assert(part_readable_at(all.take(k), raw, start0, j));
                    }
                }
                k = k + 1;
            }
        }
        assert(all.take(k) =~= all);
        Ok(())
    }
}

} // verus!
