//! Linting: every rule of a set against every item of a tree, and the lines of what they
//! report.
use vstd::prelude::*;
use vstd::string::StringSliceAdditionalSpecFns;

use crate::comments::{CommentsRef, NatspecView};
use crate::directives::{
    disable_next_line_directives, disabled, filter_disabled, not_switched_off,
    pair_views, switched_off,
};
use crate::items::{parent_contract, ParseItem, ParseSource};
use crate::lines::{line_at, LineLookup};
use crate::parser::{
    parts_located, parts_readable, parts_walk, shape_of, two_levels, ItemShape, LeafShape, Parser,
    VisitError,
};
use crate::solang::{parse_solidity, raw_views, solidity_parse};
use crate::source::{docs_located, is_doc, CommentKind};
use crate::model::{ContractDef, Span};
use crate::ruleset::RuleKind;
use crate::violation::{Violation, ViolationView};

verus! {

/// Why linting a source failed.
#[derive(Clone, Debug, PartialEq, Eq)]
pub enum LintError {
    /// The source is no valid Solidity; the text describes what the parser found.
    Parse(String),
    /// A location that should lie in the source does not.
    Location(Span),
    /// The doc comment at this location cannot be read by the doc comment parser: it stands
    /// at no file location, it lacks the `///` or `/**`/`*/` markers that the parser cuts off,
    /// its offsets would overflow, or a tag that starts one of its lines ends in a character
    /// that is not ASCII.
    DocComment(Span),
}

/// The views of a sequence of violations.
pub open spec fn views(vs: Seq<Violation>) -> Seq<ViolationView> {
    vs.map_values(|v: Violation| v@)
}

/// What the rules of `rules` report on a definition `source` (inside `parent`) documented
/// by `comments`, in rule order; a rule only looks at the kind of definition it targets.
pub open spec fn rule_verdicts(
    rules: Seq<RuleKind>,
    parent: Option<ContractDef>,
    source: ParseSource,
    comments: Seq<NatspecView>,
) -> Seq<ViolationView>
    decreases rules.len(),
{
    if rules.len() == 0 {
        Seq::empty()
    } else {
        let before = rule_verdicts(rules.drop_last(), parent, source, comments);
        let k = rules.last();
        if k.spec_target() == source.spec_kind() {
            match k.verdict(parent, source, comments) {
                Some(v) => before.push(v),
                None => before,
            }
        } else {
            before
        }
    }
}

/// What the rules report on `item` (inside `parent`) and then, in order, on each of its
/// children.
pub open spec fn item_violations(
    item: ParseItem,
    parent: Option<ContractDef>,
    rules: Seq<RuleKind>,
) -> Seq<ViolationView>
    decreases item,
{
    rule_verdicts(rules, parent, item.source, item.comments@) + children_violations(
        item.children@,
        parent_contract(Some(&item)),
        rules,
    )
}

/// What the rules report on each of `children` (parts of `parent`), in order.
pub open spec fn children_violations(
    children: Seq<ParseItem>,
    parent: Option<ContractDef>,
    rules: Seq<RuleKind>,
) -> Seq<ViolationView>
    decreases children,
{
    if children.len() == 0 {
        Seq::empty()
    } else {
        children_violations(children.drop_last(), parent, rules) + item_violations(
            children.last(),
            parent,
            rules,
        )
    }
}

/// Checks `item`, a part of `parent`, and the items nested in it against every rule of
/// `rule_set`.
pub fn process_item(item: &ParseItem, parent: Option<&ParseItem>, rule_set: &Vec<RuleKind>) -> (r:
    Vec<Violation>)
    ensures
        views(r@) == item_violations(*item, parent_contract(parent), rule_set@),
    decreases item,
{
    let comments_ref = CommentsRef::from(&item.comments);
    let mut out: Vec<Violation> = Vec::new();
    let n = rule_set.len();
    for i in 0..n
        invariant
            n == rule_set@.len(),
            comments_ref@ == item.comments@,
            views(out@) == rule_verdicts(
                rule_set@.take(i as int),
                parent_contract(parent),
                item.source,
                item.comments@,
            ),
    {
        let rule = rule_set[i];
        proof {
            assert(rule_set@.take(i + 1).drop_last() =~= rule_set@.take(i as int));
            assert(rule_set@.take(i + 1).last() == rule);
        }
        if rule.target() == item.source.kind() {
            match rule.check(parent, &item.source, &comments_ref) {
                Some(v) => {
                    let ghost before = out@;
                    out.push(v);
                    assert(views(out@) =~= views(before).push(v@));
                },
                None => {},
            }
        }
    }
    assert(rule_set@.take(n as int) =~= rule_set@);
    let ghost own = views(out@);
    let m = item.children.len();
    for i in 0..m
        invariant
            m == item.children@.len(),
            views(out@) == own + children_violations(
                item.children@.take(i as int),
                parent_contract(Some(item)),
                rule_set@,
            ),
    {
        let child = &item.children[i];
        proof {
            assert(item.children@.take(i + 1).drop_last() =~= item.children@.take(i as int));
            assert(item.children@.take(i + 1).last() == *child);
        }
        let mut found = process_item(child, Some(item), rule_set);
        let ghost before = out@;
        let ghost added = found@;
        out.append(&mut found);
        assert(views(out@) =~= views(before) + views(added));
    }
    assert(item.children@.take(m as int) =~= item.children@);
    out
}

/// The violation's location is a file location that lies in the source `src`.
pub open spec fn locatable(v: ViolationView, src: Seq<u8>) -> bool {
    v.loc is File && v.loc->1 <= src.len()
}

/// Each violation with the line on which its location starts.
pub open spec fn with_lines(vs: Seq<ViolationView>, src: Seq<u8>) -> Seq<(ViolationView, int)> {
    vs.map_values(|v: ViolationView| (v, line_at(src, v.loc->1 as int)))
}

/// Pairs each violation with the line of the source on which its location starts; fails
/// with the first location that is no file location inside the source.
pub fn locate(violations: Vec<Violation>, lookup: &LineLookup) -> (r: Result<
    Vec<(Violation, usize)>,
    LintError,
>)
    requires
        lookup.source().len() <= usize::MAX,
    ensures
        match r {
            Ok(ps) => (forall|i: int|
                0 <= i < violations@.len() ==> locatable(
                    #[trigger] violations@[i]@,
                    lookup.source(),
                )) && pair_views(ps@) == with_lines(views(violations@), lookup.source()),
            Err(LintError::Location(l)) => exists|i: int|
                0 <= i < violations@.len() && !locatable(#[trigger] violations@[i]@, lookup.source())
                    && l == violations@[i].loc,
            Err(_) => false,
        },
{
    let ghost all = violations@;
    let mut rest = violations;
    let mut out: Vec<(Violation, usize)> = Vec::new();
    let len = lookup.len();
    let ghost src = lookup.source();
    while rest.len() > 0
        invariant
            len == src.len(),
            src == lookup.source(),
            all == violations@,
            out@.len() + rest@.len() == all.len(),
            rest@ == all.skip(out@.len() as int),
            forall|i: int| 0 <= i < out@.len() ==> locatable(#[trigger] all[i]@, src),
            pair_views(out@) == with_lines(views(all.take(out@.len() as int)), src),
        decreases rest@.len(),
    {
        let ghost k = out@.len() as int;
        let v = rest.remove(0);
        assert(v == all[k]);
        match v.loc {
            Span::File(_, start, _) => {
                if start > len {
                    assert(!locatable(all[k]@, src));
                    return Err(LintError::Location(v.loc));
                }
                let line = lookup.line(start);
                let ghost before = out@;
                out.push((v, line));
                assert(all.take(k + 1) =~= all.take(k).push(all[k]));
                assert(pair_views(out@) =~= pair_views(before).push((all[k]@, line as int)));
                assert(views(all.take(k + 1)) =~= views(all.take(k)).push(all[k]@));
            },
            _ => {
                assert(!locatable(all[k]@, src));
                return Err(LintError::Location(v.loc));
            },
        }
    }
    assert(all.take(all.len() as int) =~= all);
    Ok(out)
}

/// The contract that a definition is, if it is one.
pub open spec fn contract_of(source: ParseSource) -> Option<ContractDef> {
    match source {
        ParseSource::Contract(c) => Some(c),
        _ => None,
    }
}

/// What the rules report on each of the items `leaves` (parts of `parent`), in order.
pub open spec fn leaves_violations(
    leaves: Seq<LeafShape>,
    parent: Option<ContractDef>,
    rules: Seq<RuleKind>,
) -> Seq<ViolationView>
    decreases leaves.len(),
{
    if leaves.len() == 0 {
        Seq::empty()
    } else {
        leaves_violations(leaves.drop_last(), parent, rules) + rule_verdicts(
            rules,
            parent,
            leaves.last().source,
            leaves.last().comments,
        )
    }
}

/// What the rules report on a top-level item and then on its parts.
pub open spec fn shape_violations(shape: ItemShape, rules: Seq<RuleKind>) -> Seq<ViolationView> {
    rule_verdicts(rules, None, shape.source, shape.comments) + leaves_violations(
        shape.children,
        contract_of(shape.source),
        rules,
    )
}

/// What the rules report on each of the top-level items `shapes`, in order.
pub open spec fn shapes_violations(shapes: Seq<ItemShape>, rules: Seq<RuleKind>) -> Seq<
    ViolationView,
>
    decreases shapes.len(),
{
    if shapes.len() == 0 {
        Seq::empty()
    } else {
        shapes_violations(shapes.drop_last(), rules) + shape_violations(shapes.last(), rules)
    }
}

proof fn lemma_children_leaves(
    children: Seq<ParseItem>,
    parent: Option<ContractDef>,
    rules: Seq<RuleKind>,
)
    requires
        forall|j: int| 0 <= j < children.len() ==> (#[trigger] children[j]).children@.len() == 0,
    ensures
        children_violations(children, parent, rules) == leaves_violations(
            children.map_values(|c: ParseItem| LeafShape { source: c.source, comments: c.comments@ }),
            parent,
            rules,
        ),
    decreases children.len(),
{
    if children.len() > 0 {
        let f = |c: ParseItem| LeafShape { source: c.source, comments: c.comments@ };
        lemma_children_leaves(children.drop_last(), parent, rules);
        assert(children.drop_last().map_values(f) =~= children.map_values(f).drop_last());
        let last = children.last();
        assert(last.children@.len() == 0);
        assert(children.map_values(f).last() == f(last));
        assert(children_violations(last.children@, parent_contract(Some(&last)), rules) =~= Seq::<
            ViolationView,
        >::empty());
        let own = rule_verdicts(rules, parent, last.source, last.comments@);
        assert(item_violations(last, parent, rules) =~= own);
    }
}

proof fn lemma_item_shape(item: ParseItem, rules: Seq<RuleKind>)
    requires
        two_levels(item),
    ensures
        item_violations(item, None, rules) == shape_violations(shape_of(item), rules),
{
    lemma_children_leaves(item.children@, parent_contract(Some(&item)), rules);
}

/// What linting `content` against `rules` gives as `r`. Where the source is no valid Solidity: the parser's message. Where a doc comment is at
/// no file location: that error. Where a definition is at no file location or a doc comment
/// that documents one cannot be read: one of these errors, each only where its cause holds.
/// Otherwise what each rule reports on each documented definition, in order, with the line on
/// which it starts, less those on a line that a disable-next-line directive of the source
/// switches off for their rule; or, where one of them does not lie in the source, a location
/// error.
pub open spec fn lint_outcome(
    content: &str,
    rules: Seq<RuleKind>,
    r: Result<Vec<(Violation, usize)>, LintError>,
) -> bool {
    match solidity_parse(content@) {
        Err(m) => r matches Err(LintError::Parse(e)) && e@ == m,
        Ok((unit, raw)) => if !docs_located(raw) {
            r matches Err(LintError::DocComment(_))
        } else if !(parts_located(unit.0@) && parts_readable(unit.0@, raw, 0)) {
            ||| r matches Err(LintError::Location(_)) && !parts_located(unit.0@)
            ||| r matches Err(LintError::DocComment(_)) && !parts_readable(unit.0@, raw, 0)
        } else {
            let vs = shapes_violations(parts_walk(unit.0@, raw, 0).0, rules);
            match r {
                Ok(ps) => (forall|i: int|
                    0 <= i < vs.len() ==> locatable(#[trigger] vs[i], content.spec_bytes()))
                    && pair_views(ps@) == not_switched_off(with_lines(vs, content.spec_bytes()), content@),
                Err(LintError::Location(_)) => exists|i: int|
                    0 <= i < vs.len() && !locatable(#[trigger] vs[i], content.spec_bytes()),
                Err(_) => false,
            }
        },
    }
}

/// Lints a Solidity source against the rules of `rule_set`: what each rule reports on each
/// documented definition (top-level ones in order, each followed by the parts of a
/// contract), with the line on which it starts, less the violations on a line that a
/// disable-next-line directive of the source switches off for their rule (see `directives`
/// for the directive's form).
///
/// A definition is documented by the natspec comments of the doc comments that stand
/// between the end of the previous definition (or the start of its contract) and its start.
/// Fails where the source is no valid Solidity, where a doc comment that documents a
/// definition cannot be read, or where a location does not lie in the source.
pub fn lint(content: &str, rule_set: &Vec<RuleKind>) -> (r: Result<Vec<(Violation, usize)>, LintError>)
    ensures
        lint_outcome(content, rule_set@, r),
{
    let (unit, comments) = match parse_solidity(content) {
        Ok(parsed) => parsed,
        Err(m) => return Err(LintError::Parse(m)),
    };
    let ghost raw = raw_views(comments@);
    let ghost unit_g = unit;
    assert(solidity_parse(content@) == Ok::<_, Seq<char>>((unit_g, raw)));
    let n = comments.len();
    for i in 0..n
        invariant
            n == comments@.len(),
            raw == raw_views(comments@),
            solidity_parse(content@) == Ok::<_, Seq<char>>((unit_g, raw)),
            forall|j: int| 0 <= j < i && is_doc(#[trigger] raw[j]) ==> raw[j].loc is File,
    {
        assert(raw[i as int] == comments@[i as int]@);
        let doc = match comments[i].kind {
            CommentKind::DocLine | CommentKind::DocBlock => true,
            _ => false,
        };
        if doc {
            match comments[i].loc {
                Span::File(..) => {},
                l => return Err(LintError::DocComment(l)),
            }
        }
    }
    let ghost parts = unit.0@;
    let mut parser = Parser::new(comments);
    match parser.visit_source_unit(unit) {
        Ok(()) => {},
        Err(VisitError::Location(l)) => return Err(LintError::Location(l)),
        Err(VisitError::DocComment(l)) => return Err(LintError::DocComment(l)),
    }
    let items = parser.items();
    let ghost shapes = parts_walk(parts, raw, 0).0;
    assert(items@.map_values(|i: ParseItem| shape_of(i)) =~= shapes);
    let mut violations: Vec<Violation> = Vec::new();
    let m = items.len();
    for i in 0..m
        invariant
            m == items@.len(),
            solidity_parse(content@) == Ok::<_, Seq<char>>((unit_g, raw)),
            parts_located(unit_g.0@),
            parts_readable(unit_g.0@, raw, 0),
            docs_located(raw),
            shapes == parts_walk(unit_g.0@, raw, 0).0,
            items@.map_values(|i: ParseItem| shape_of(i)) == shapes,
            forall|j: int| 0 <= j < items@.len() ==> two_levels(#[trigger] items@[j]),
            views(violations@) == shapes_violations(shapes.take(i as int), rule_set@),
    {
        proof {
            lemma_item_shape(items@[i as int], rule_set@);
            assert(shapes.take(i + 1).drop_last() =~= shapes.take(i as int));
            assert(shapes.take(i + 1).last() == shape_of(items@[i as int]));
        }
        let mut found = process_item(&items[i], None, rule_set);
        let ghost before = violations@;
        let ghost added = found@;
        violations.append(&mut found);
        assert(views(violations@) =~= views(before) + views(added));
    }
    assert(shapes.take(m as int) =~= shapes);
    let lookup = LineLookup::new(content);
    let ghost vv = violations@;
    let ghost vs = views(vv);
    let r = locate(violations, &lookup);
    proof {
        assert forall|i: int| 0 <= i < vv.len() implies #[trigger] vs[i] == vv[i]@ by {}
        match r {
            Ok(_) => {
                assert forall|i: int| 0 <= i < vs.len() implies locatable(#[trigger] vs[i], content.spec_bytes()) by {
                    assert(vs[i] == vv[i]@);
                }
            },
            Err(LintError::Location(_)) => {
                let i = choose|i: int| 0 <= i < vv.len() && !locatable(#[trigger] vv[i]@, lookup.source());
                assert(vs[i] == vv[i]@);
            },
            Err(_) => {},
        }
    }
    match r {
        Ok(found) => {
            let directives = disable_next_line_directives(content);
            let kept = filter_disabled(found, &directives);
            proof {
                let f1 = |line: int, rule: Seq<char>| disabled(directives@, line, rule);
                let f2 = |line: int, rule: Seq<char>| switched_off(content@, line, rule);
                assert(f1 =~= f2);
            }
            Ok(kept)
        },
        Err(e) => Err(e),
    }
}

} // verus!
