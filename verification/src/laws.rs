//! Properties of the rules taken together.
use vstd::prelude::*;

use crate::directives::{
    directive_names, kept, not_switched_off, pair_views, source_lines, switched_off, switches_off,
};
use crate::comments::{inheritdoc_base, with_tag, NatspecView, TagView, variant_tag};
use crate::items::ParseSource;
use crate::linter::{
    leaves_violations, lint_outcome, rule_verdicts, shape_violations, shapes_violations, with_lines,
};
use crate::parser::{docs_between, member_source, members_walk, parts_walk};
use crate::source::{ContractMember, RawCommentView, SourceItem};
use crate::solang::solidity_parse;
use crate::violation::Violation;
use vstd::string::StringSliceAdditionalSpecFns;
use crate::parser::{ItemShape, LeafShape};
use crate::model::{ContractDef, EnumDef, ErrorDef, FunctionDef, StructDef, VariableDef};
use crate::rules::{documents, documents_or_empty, enums, errors, functions, structs, variables};
use crate::ruleset::RuleKind;
use crate::text::{lemma_first_index_none, lemma_first_index_some};
use crate::violation::{ErrorView, ViolationView};

verus! {

/// A function or variable with an `@inheritdoc` comment that names a base is exempt from
/// the notice, parameter and return rules: none of them reports anything.
pub proof fn lemma_inheritdoc_exempts(
    func: FunctionDef,
    var: VariableDef,
    comments: Seq<NatspecView>,
)
    requires
        inheritdoc_base(comments) is Some,
    ensures
        functions::missing_notice::MissingNotice::spec_check(func, comments) is None,
        functions::missing_params::MissingParams::spec_check(func, comments) is None,
        functions::missing_return::MissingReturn::spec_check(func, comments) is None,
        variables::missing_notice::MissingNotice::spec_check(var, comments) is None,
{
}

/// Parts of interfaces and libraries never need an `@inheritdoc` comment.
pub proof fn lemma_interfaces_need_no_inheritdoc(
    parent: ContractDef,
    func: FunctionDef,
    var: VariableDef,
    comments: Seq<NatspecView>,
)
    requires
        parent.ty is Interface || parent.ty is Library,
    ensures
        functions::missing_inheritdoc::MissingInheritdoc::spec_check(Some(parent), func, comments)
            is None,
        variables::missing_inheritdoc::MissingInheritdoc::spec_check(Some(parent), var, comments)
            is None,
{
}

/// An error passes `MissingParam` exactly when it has as many `@param` comments as
/// parameters and every parameter has a name that some `@param` comment starts with.
pub proof fn lemma_error_params_documented(item: ErrorDef, comments: Seq<NatspecView>)
    ensures
        errors::missing_param::MissingParam::spec_check(item, comments) is None <==> {
            let params = with_tag(comments, TagView::Param);
            &&& item.fields@.len() == params.len()
            &&& forall|i: int|
                0 <= i < item.fields@.len() ==> errors::missing_param::field_documented(
                    #[trigger] item.fields@[i],
                    params,
                )
        },
{
    let params = with_tag(comments, TagView::Param);
    let fields = item.fields@;
    let p = |i: int| !errors::missing_param::field_documented(fields[i], params);
    if fields.len() == params.len() {
        if forall|i: int| 0 <= i < fields.len() ==> !#[trigger] p(i) {
            lemma_first_index_none(fields.len() as int, p);
            assert forall|i: int| 0 <= i < fields.len() implies errors::missing_param::field_documented(#[trigger] item.fields@[i], params) by {
                assert(!p(i));
            }
        } else {
            let i = choose|i: int| 0 <= i < fields.len() && #[trigger] p(i);
            lemma_first_index_some(fields.len() as int, p, i);
        }
    }
}

/// A struct passes `MissingParams` exactly when it has as many `@param` comments as fields
/// and every field has a name that some `@param` comment starts with.
pub proof fn lemma_struct_fields_documented(item: StructDef, comments: Seq<NatspecView>)
    ensures
        structs::missing_params::MissingParams::spec_check(item, comments) is None <==> {
            let params = with_tag(comments, TagView::Param);
            &&& item.fields@.len() == params.len()
            &&& forall|i: int|
                0 <= i < item.fields@.len() ==> structs::missing_params::field_documented(
                    #[trigger] item.fields@[i],
                    params,
                )
        },
{
    let params = with_tag(comments, TagView::Param);
    let fields = item.fields@;
    let p = |i: int| !structs::missing_params::field_documented(fields[i], params);
    if fields.len() == params.len() {
        if forall|i: int| 0 <= i < fields.len() ==> !#[trigger] p(i) {
            lemma_first_index_none(fields.len() as int, p);
            assert forall|i: int| 0 <= i < fields.len() implies structs::missing_params::field_documented(#[trigger] item.fields@[i], params) by {
                assert(!p(i));
            }
        } else {
            let i = choose|i: int| 0 <= i < fields.len() && #[trigger] p(i);
            lemma_first_index_some(fields.len() as int, p, i);
        }
    }
}

/// An enum passes `MissingVariant` exactly when it has as many `@custom:variant` comments as
/// variants and every variant has a name that some such comment starts with.
pub proof fn lemma_enum_variants_documented(item: EnumDef, comments: Seq<NatspecView>)
    ensures
        enums::missing_variant::MissingVariant::spec_check(item, comments) is None <==> {
            let docs = with_tag(comments, variant_tag());
            &&& item.values@.len() == docs.len()
            &&& forall|i: int|
                0 <= i < item.values@.len() ==> enums::missing_variant::variant_documented(
                    #[trigger] item.values@[i],
                    docs,
                )
        },
{
    let docs = with_tag(comments, variant_tag());
    let values = item.values@;
    let p = |i: int| !enums::missing_variant::variant_documented(values[i], docs);
    if values.len() == docs.len() {
        if forall|i: int| 0 <= i < values.len() ==> !#[trigger] p(i) {
            lemma_first_index_none(values.len() as int, p);
            assert forall|i: int| 0 <= i < values.len() implies enums::missing_variant::variant_documented(#[trigger] item.values@[i], docs) by {
                assert(!p(i));
            }
        } else {
            let i = choose|i: int| 0 <= i < values.len() && #[trigger] p(i);
            lemma_first_index_some(values.len() as int, p, i);
        }
    }
}

/// A function that the parameter rule checks passes it exactly when it has as many `@param`
/// comments as parameters and every named parameter is the first word of some `@param`
/// comment.
pub proof fn lemma_function_params_documented(func: FunctionDef, comments: Seq<NatspecView>)
    requires
        !(func.ty is Receive || func.ty is Fallback),
        inheritdoc_base(comments) is None,
    ensures
        functions::missing_params::MissingParams::spec_check(func, comments) is None <==> {
            let params = with_tag(comments, TagView::Param);
            &&& func.params@.len() == params.len()
            &&& forall|i: int|
                0 <= i < func.params@.len() ==> !functions::missing_params::param_undocumented(
                    #[trigger] func.params@[i],
                    params,
                )
        },
{
    let params = with_tag(comments, TagView::Param);
    let list = func.params@;
    let p = |i: int| functions::missing_params::param_undocumented(list[i], params);
    if list.len() == params.len() {
        if forall|i: int| 0 <= i < list.len() ==> !#[trigger] p(i) {
            lemma_first_index_none(list.len() as int, p);
            assert forall|i: int| 0 <= i < list.len() implies !functions::missing_params::param_undocumented(#[trigger] func.params@[i], params) by {
                assert(!p(i));
            }
        } else {
            let i = choose|i: int| 0 <= i < list.len() && #[trigger] p(i);
            lemma_first_index_some(list.len() as int, p, i);
        }
    }
}

/// A function that the return rule checks passes it exactly when it has as many `@return`
/// comments as return variables and every named return variable is the first word of some
/// `@return` comment.
pub proof fn lemma_function_returns_documented(func: FunctionDef, comments: Seq<NatspecView>)
    requires
        func.ty is Function,
        inheritdoc_base(comments) is None,
    ensures
        functions::missing_return::MissingReturn::spec_check(func, comments) is None <==> {
            let docs = with_tag(comments, TagView::Return);
            &&& func.returns@.len() == docs.len()
            &&& forall|i: int|
                0 <= i < func.returns@.len() ==> !functions::missing_params::param_undocumented(
                    #[trigger] func.returns@[i],
                    docs,
                )
        },
{
    let docs = with_tag(comments, TagView::Return);
    let list = func.returns@;
    let p = |i: int| functions::missing_params::param_undocumented(list[i], docs);
    if list.len() == docs.len() {
        if forall|i: int| 0 <= i < list.len() ==> !#[trigger] p(i) {
            lemma_first_index_none(list.len() as int, p);
            assert forall|i: int| 0 <= i < list.len() implies !functions::missing_params::param_undocumented(#[trigger] func.returns@[i], docs) by {
                assert(!p(i));
            }
        } else {
            let i = choose|i: int| 0 <= i < list.len() && #[trigger] p(i);
            lemma_first_index_some(list.len() as int, p, i);
        }
    }
}

/// A rule reports nothing on a definition of another kind than the one it targets.
pub proof fn lemma_rule_only_on_target(
    rule: RuleKind,
    parent: Option<ContractDef>,
    source: ParseSource,
    comments: Seq<NatspecView>,
)
    requires
        rule.spec_target() != source.spec_kind(),
    ensures
        rule.verdict(parent, source, comments) is None,
{
}

/// Everything that a set of rules reports on a definition is what one of them, targeting
/// that kind of definition, reports on it.
pub proof fn lemma_verdicts_from_rules(
    rules: Seq<RuleKind>,
    parent: Option<ContractDef>,
    source: ParseSource,
    comments: Seq<NatspecView>,
)
    ensures
        forall|j: int|
            0 <= j < rule_verdicts(rules, parent, source, comments).len() ==> exists|k: RuleKind|
                #[trigger] rules.contains(k) && k.spec_target() == source.spec_kind() && k.verdict(
                    parent,
                    source,
                    comments,
                ) == Some(#[trigger] rule_verdicts(rules, parent, source, comments)[j]),
    decreases rules.len(),
{
    if rules.len() > 0 {
        let rest = rules.drop_last();
        let before = rule_verdicts(rest, parent, source, comments);
        lemma_verdicts_from_rules(rest, parent, source, comments);
        let all = rule_verdicts(rules, parent, source, comments);
        let last = rules.last();
        assert(rules.contains(last)) by {
            assert(rules[rules.len() - 1] == last);
        }
        assert forall|j: int| 0 <= j < all.len() implies exists|k: RuleKind|
            #[trigger] rules.contains(k) && k.spec_target() == source.spec_kind() && k.verdict(
                parent,
                source,
                comments,
            ) == Some(#[trigger] all[j]) by {
            if j < before.len() {
                assert(all[j] == before[j]);
                let k = choose|k: RuleKind|
                    #[trigger] rest.contains(k) && k.spec_target() == source.spec_kind()
                        && k.verdict(parent, source, comments) == Some(before[j]);
                let m = choose|m: int| 0 <= m < rest.len() && rest[m] == k;
                assert(rules[m] == k);
                assert(rules.contains(k));
            } else {
                assert(last.spec_target() == source.spec_kind());
                assert(last.verdict(parent, source, comments) == Some(all[j]));
            }
        }
    }
}

/// The violation carries the name of a rule of `rules`.
pub open spec fn names_rule_of(v: ViolationView, rules: Seq<RuleKind>) -> bool {
    exists|k: RuleKind| #[trigger] rules.contains(k) && v.rule_name == k.spec_name()@
}

/// Every violation of `vs` carries the name of a rule of `rules`.
pub open spec fn named_by(vs: Seq<ViolationView>, rules: Seq<RuleKind>) -> bool {
    forall|j: int| 0 <= j < vs.len() ==> names_rule_of(#[trigger] vs[j], rules)
}

/// What a rule reports carries the rule's name.
pub proof fn lemma_verdict_names_rule(
    rule: RuleKind,
    parent: Option<ContractDef>,
    source: ParseSource,
    comments: Seq<NatspecView>,
)
    ensures
        rule.verdict(parent, source, comments) matches Some(v) ==> v.rule_name
            == rule.spec_name()@,
{
}

proof fn lemma_named_by_concat(a: Seq<ViolationView>, b: Seq<ViolationView>, rules: Seq<RuleKind>)
    requires
        named_by(a, rules),
        named_by(b, rules),
    ensures
        named_by(a + b, rules),
{
    assert forall|j: int| 0 <= j < (a + b).len() implies names_rule_of(#[trigger] (a + b)[j], rules) by {
        if j < a.len() {
            assert((a + b)[j] == a[j]);
        } else {
            assert((a + b)[j] == b[j - a.len()]);
        }
    }
}

proof fn lemma_verdicts_named(
    rules: Seq<RuleKind>,
    parent: Option<ContractDef>,
    source: ParseSource,
    comments: Seq<NatspecView>,
)
    ensures
        named_by(rule_verdicts(rules, parent, source, comments), rules),
{
    let vs = rule_verdicts(rules, parent, source, comments);
    lemma_verdicts_from_rules(rules, parent, source, comments);
    assert forall|j: int| 0 <= j < vs.len() implies names_rule_of(#[trigger] vs[j], rules) by {
        let k = choose|k: RuleKind|
            #[trigger] rules.contains(k) && k.spec_target() == source.spec_kind() && k.verdict(
                parent,
                source,
                comments,
            ) == Some(vs[j]);
        lemma_verdict_names_rule(k, parent, source, comments);
        assert(rules.contains(k) && vs[j].rule_name == k.spec_name()@);
    }
}

proof fn lemma_leaves_named(leaves: Seq<LeafShape>, parent: Option<ContractDef>, rules: Seq<RuleKind>)
    ensures
        named_by(leaves_violations(leaves, parent, rules), rules),
    decreases leaves.len(),
{
    if leaves.len() > 0 {
        lemma_leaves_named(leaves.drop_last(), parent, rules);
        lemma_verdicts_named(rules, parent, leaves.last().source, leaves.last().comments);
        lemma_named_by_concat(
            leaves_violations(leaves.drop_last(), parent, rules),
            rule_verdicts(rules, parent, leaves.last().source, leaves.last().comments),
            rules,
        );
    }
}

/// Everything that linting reports on the items of a source carries the name of one of
/// the chosen rules.
pub proof fn lemma_lint_names_chosen_rules(shapes: Seq<ItemShape>, rules: Seq<RuleKind>)
    ensures
        named_by(shapes_violations(shapes, rules), rules),
    decreases shapes.len(),
{
    if shapes.len() > 0 {
        let last = shapes.last();
        lemma_lint_names_chosen_rules(shapes.drop_last(), rules);
        lemma_verdicts_named(rules, None, last.source, last.comments);
        lemma_leaves_named(last.children, crate::linter::contract_of(last.source), rules);
        lemma_named_by_concat(
            rule_verdicts(rules, None, last.source, last.comments),
            leaves_violations(last.children, crate::linter::contract_of(last.source), rules),
            rules,
        );
        assert(shape_violations(last, rules) == rule_verdicts(rules, None, last.source, last.comments)
            + leaves_violations(last.children, crate::linter::contract_of(last.source), rules));
        lemma_named_by_concat(
            shapes_violations(shapes.drop_last(), rules),
            shape_violations(last, rules),
            rules,
        );
    }
}

/// With no rules chosen, linting reports nothing.
pub proof fn lemma_no_rules_no_violations(shapes: Seq<ItemShape>)
    ensures
        shapes_violations(shapes, Seq::<RuleKind>::empty()) == Seq::<ViolationView>::empty(),
    decreases shapes.len(),
{
    if shapes.len() > 0 {
        let none = Seq::<RuleKind>::empty();
        let last = shapes.last();
        lemma_no_rules_no_violations(shapes.drop_last());
        lemma_no_leaves_violations(last.children, crate::linter::contract_of(last.source));
        assert(shape_violations(last, none) =~= Seq::<ViolationView>::empty());
        assert(shapes_violations(shapes, none) =~= Seq::<ViolationView>::empty());
    }
}

proof fn lemma_no_leaves_violations(leaves: Seq<LeafShape>, parent: Option<ContractDef>)
    ensures
        leaves_violations(leaves, parent, Seq::<RuleKind>::empty()) == Seq::<ViolationView>::empty(),
    decreases leaves.len(),
{
    if leaves.len() > 0 {
        lemma_no_leaves_violations(leaves.drop_last(), parent);
        assert(leaves_violations(leaves, parent, Seq::<RuleKind>::empty()) =~= Seq::<
            ViolationView,
        >::empty());
    }
}

/// Selecting the comments that carry a tag keeps exactly those: every selected comment
/// carries the tag, and every comment that carries it is selected.
pub proof fn lemma_with_tag_selects(s: Seq<NatspecView>, t: TagView)
    ensures
        forall|i: int| 0 <= i < with_tag(s, t).len() ==> (#[trigger] with_tag(s, t)[i]).tag == t,
        forall|i: int| 0 <= i < s.len() && (#[trigger] s[i]).tag == t ==> with_tag(s, t).contains(s[i]),
    decreases s.len(),
{
    if s.len() > 0 {
        let rest = s.drop_last();
        lemma_with_tag_selects(rest, t);
        let w = with_tag(s, t);
        let wr = with_tag(rest, t);
        assert forall|i: int| 0 <= i < s.len() && (#[trigger] s[i]).tag == t implies w.contains(s[i]) by {
            if i < s.len() - 1 {
                assert(rest[i] == s[i]);
                let j = choose|j: int| 0 <= j < wr.len() && wr[j] == rest[i];
                if s.last().tag == t {
                    assert(w[j] == wr[j]);
                } else {
                    assert(w[j] == wr[j]);
                }
            } else {
                assert(w[w.len() - 1] == s.last());
            }
        }
    }
}

proof fn lemma_kept_all(ps: Seq<(ViolationView, int)>, off: spec_fn(int, Seq<char>) -> bool)
    requires
        forall|line: int, rule: Seq<char>| !#[trigger] off(line, rule),
    ensures
        kept(ps, off) == ps,
    decreases ps.len(),
{
    if ps.len() > 0 {
        lemma_kept_all(ps.drop_last(), off);
        assert(ps.drop_last().push(ps.last()) =~= ps);
    }
}

/// A source without disable-next-line directives keeps every violation.
pub proof fn lemma_no_directives_keep_all(ps: Seq<(ViolationView, int)>, s: Seq<char>)
    requires
        forall|k: int| 0 <= k < source_lines(s).len() ==> directive_names(#[trigger] source_lines(s)[k]) is None,
    ensures
        not_switched_off(ps, s) == ps,
{
    let off = |line: int, rule: Seq<char>| switched_off(s, line, rule);
    assert forall|line: int, rule: Seq<char>| !#[trigger] off(line, rule) by {
        if switched_off(s, line, rule) {
            let k = choose|k: int| 0 <= k < source_lines(s).len() && line == k + 2 && #[trigger] switches_off(source_lines(s), k, rule);
            assert(directive_names(source_lines(s)[k]) is None);
        }
    }
    lemma_kept_all(ps, off);
}

proof fn lemma_kept_drops(ps: Seq<(ViolationView, int)>, off: spec_fn(int, Seq<char>) -> bool)
    ensures
        forall|i: int| 0 <= i < kept(ps, off).len() ==> !off((#[trigger] kept(ps, off)[i]).1, kept(ps, off)[i].0.rule_name),
        forall|i: int| 0 <= i < ps.len() && !off((#[trigger] ps[i]).1, ps[i].0.rule_name) ==> kept(ps, off).contains(ps[i]),
    decreases ps.len(),
{
    if ps.len() > 0 {
        let rest = ps.drop_last();
        lemma_kept_drops(rest, off);
        let k = kept(ps, off);
        let kr = kept(rest, off);
        assert forall|i: int| 0 <= i < ps.len() && !off((#[trigger] ps[i]).1, ps[i].0.rule_name) implies k.contains(ps[i]) by {
            if i < ps.len() - 1 {
                assert(rest[i] == ps[i]);
                let j = choose|j: int| 0 <= j < kr.len() && kr[j] == rest[i];
                assert(k[j] == kr[j]);
            } else {
                assert(k[k.len() - 1] == ps.last());
            }
        }
    }
}

/// No violation that is kept stands on a line that a directive of the source switches off for
/// its rule, and every violation on a line not switched off for its rule is kept.
pub proof fn lemma_switched_off_dropped(ps: Seq<(ViolationView, int)>, s: Seq<char>)
    ensures
        forall|i: int|
            0 <= i < not_switched_off(ps, s).len() ==> !switched_off(
                s,
                (#[trigger] not_switched_off(ps, s)[i]).1,
                not_switched_off(ps, s)[i].0.rule_name,
            ),
        forall|i: int|
            0 <= i < ps.len() && !switched_off(s, (#[trigger] ps[i]).1, ps[i].0.rule_name)
                ==> not_switched_off(ps, s).contains(ps[i]),
{
    let off = |line: int, rule: Seq<char>| switched_off(s, line, rule);
    lemma_kept_drops(ps, off);
}

proof fn lemma_with_tag_counts(c: Seq<NatspecView>, t: TagView)
    ensures
        forall|x: NatspecView|
            #[trigger] with_tag(c, t).to_multiset().count(x) == if x.tag == t {
                c.to_multiset().count(x)
            } else {
                0
            },
    decreases c.len(),
{
    broadcast use {vstd::seq_lib::group_to_multiset_ensures, vstd::multiset::group_multiset_axioms};

    if c.len() == 0 {
        assert(with_tag(c, t) =~= Seq::<NatspecView>::empty());
        assert(c =~= Seq::<NatspecView>::empty());
    } else {
        let rest = c.drop_last();
        lemma_with_tag_counts(rest, t);
        assert(rest.push(c.last()) =~= c);
        if c.last().tag == t {
            assert(with_tag(c, t) == with_tag(rest, t).push(c.last()));
        } else {
            assert(with_tag(c, t) == with_tag(rest, t));
        }
    }
}

proof fn lemma_with_tag_same_elements(c1: Seq<NatspecView>, c2: Seq<NatspecView>, t: TagView)
    requires
        c1.to_multiset() == c2.to_multiset(),
    ensures
        with_tag(c1, t).len() == with_tag(c2, t).len(),
        forall|x: NatspecView| with_tag(c1, t).contains(x) <==> with_tag(c2, t).contains(x),
{
    let m1 = with_tag(c1, t);
    let m2 = with_tag(c2, t);
    lemma_with_tag_counts(c1, t);
    lemma_with_tag_counts(c2, t);
    assert(m1.to_multiset() =~= m2.to_multiset()) by {
        assert forall|x: NatspecView| m1.to_multiset().count(x) == m2.to_multiset().count(x) by {
            assert(c1.to_multiset().count(x) == c2.to_multiset().count(x));
        }
    }
    m1.to_multiset_ensures();
    m2.to_multiset_ensures();
    assert(m1.len() == m2.len());
    assert forall|x: NatspecView| m1.contains(x) <==> m2.contains(x) by {
        assert(m1.contains(x) <==> m1.to_multiset().count(x) > 0);
        assert(m2.contains(x) <==> m2.to_multiset().count(x) > 0);
    }
}

proof fn lemma_same_elements_document(p1: Seq<NatspecView>, p2: Seq<NatspecView>)
    requires
        forall|x: NatspecView| p1.contains(x) <==> p2.contains(x),
    ensures
        forall|name: Seq<char>| #[trigger] documents(p1, name) == documents(p2, name),
        forall|name: Seq<char>| #[trigger] documents_or_empty(p1, name) == documents_or_empty(p2, name),
{
    assert forall|a: Seq<NatspecView>, b: Seq<NatspecView>, name: Seq<char>|
        (forall|x: NatspecView| a.contains(x) <==> b.contains(x)) && #[trigger] documents(a, name)
            implies #[trigger] documents(b, name) by {
        let j = choose|j: int|
            0 <= j < a.len() && (#[trigger] crate::comments::split_first_word(a[j].value) matches Some(
                (w, _),
            ) && w == name);
        assert(a.contains(a[j]));
        let k = choose|k: int| 0 <= k < b.len() && b[k] == a[j];
        assert(crate::comments::split_first_word(b[k].value) == crate::comments::split_first_word(a[j].value));
    }
    assert forall|a: Seq<NatspecView>, b: Seq<NatspecView>, name: Seq<char>|
        (forall|x: NatspecView| a.contains(x) <==> b.contains(x)) && #[trigger] documents_or_empty(a, name)
            implies #[trigger] documents_or_empty(b, name) by {
        let j = choose|j: int|
            0 <= j < a.len() && #[trigger] crate::rules::first_word_or_empty(a[j].value) == name;
        assert(a.contains(a[j]));
        let k = choose|k: int| 0 <= k < b.len() && b[k] == a[j];
        assert(crate::rules::first_word_or_empty(b[k].value) == crate::rules::first_word_or_empty(a[j].value));
    }
}

/// The rules on documented names (of error and function parameters, struct fields, enum
/// variants and return variables) look neither at the parent nor at the order of the
/// comments. For the two function rules this holds where reordering does not change whether
/// the first `@inheritdoc` comment names a base, since only that comment exempts a function.
pub proof fn lemma_name_rules_ignore_parent_and_order(
    k: RuleKind,
    p1: Option<ContractDef>,
    p2: Option<ContractDef>,
    source: ParseSource,
    c1: Seq<NatspecView>,
    c2: Seq<NatspecView>,
)
    requires
        k is EnumMissingVariant || k is ErrorMissingParam || k is StructMissingParams
            || k is FunctionMissingParams || k is FunctionMissingReturn,
        c1.to_multiset() == c2.to_multiset(),
        (k is FunctionMissingParams || k is FunctionMissingReturn) ==> ((inheritdoc_base(c1) is Some)
            == (inheritdoc_base(c2) is Some)),
    ensures
        k.verdict(p1, source, c1) == k.verdict(p2, source, c2),
{
    let t = if k is EnumMissingVariant {
        variant_tag()
    } else if k is FunctionMissingReturn {
        TagView::Return
    } else {
        TagView::Param
    };
    lemma_with_tag_same_elements(c1, c2, t);
    let d1 = with_tag(c1, t);
    let d2 = with_tag(c2, t);
    lemma_same_elements_document(d1, d2);
    match source {
        ParseSource::Enum(item) => {
            if k is EnumMissingVariant {
                let values = item.values@;
                assert((|i: int| !enums::missing_variant::variant_documented(values[i], d1)) =~= (|i: int|
                    !enums::missing_variant::variant_documented(values[i], d2)));
            }
        },
        ParseSource::Error(item) => {
            if k is ErrorMissingParam {
                let fields = item.fields@;
                assert((|i: int| !errors::missing_param::field_documented(fields[i], d1)) =~= (|i: int|
                    !errors::missing_param::field_documented(fields[i], d2)));
            }
        },
        ParseSource::Struct(item) => {
            if k is StructMissingParams {
                let fields = item.fields@;
                assert((|i: int| !structs::missing_params::field_documented(fields[i], d1)) =~= (|i: int|
                    !structs::missing_params::field_documented(fields[i], d2)));
            }
        },
        ParseSource::Function(func) => {
            let list = if k is FunctionMissingReturn {
                func.returns@
            } else {
                func.params@
            };
            assert((|i: int| functions::missing_params::param_undocumented(list[i], d1)) =~= (|i: int|
                functions::missing_params::param_undocumented(list[i], d2)));
        },
        _ => {},
    }
}

/// `idx` picks the elements of `a` out of `b` in order: increasing positions of `b` that hold
/// the elements of `a`.
pub open spec fn picks<T>(a: Seq<T>, b: Seq<T>, idx: Seq<int>) -> bool {
    &&& idx.len() == a.len()
    &&& forall|i: int| 0 <= i < idx.len() ==> 0 <= #[trigger] idx[i] < b.len() && b[idx[i]] == a[i]
    &&& forall|i: int, j: int| 0 <= i < j < idx.len() ==> #[trigger] idx[i] < #[trigger] idx[j]
}

/// `a` is `b` with some elements left out, the rest in the same order.
pub open spec fn subsequence<T>(a: Seq<T>, b: Seq<T>) -> bool {
    exists|idx: Seq<int>| picks(a, b, idx)
}

proof fn lemma_picks_prefix<T>(a: Seq<T>, c: Seq<T>) -> (idx: Seq<int>)
    ensures
        picks(a, a + c, idx),
{
    Seq::new(a.len(), |i: int| i)
}

proof fn lemma_picks_concat<T>(
    a1: Seq<T>,
    b1: Seq<T>,
    i1: Seq<int>,
    a2: Seq<T>,
    b2: Seq<T>,
    i2: Seq<int>,
) -> (idx: Seq<int>)
    requires
        picks(a1, b1, i1),
        picks(a2, b2, i2),
    ensures
        picks(a1 + a2, b1 + b2, idx),
{
    let shifted = i2.map_values(|x: int| x + b1.len());
    let idx = i1 + shifted;
    assert forall|i: int| 0 <= i < idx.len() implies 0 <= #[trigger] idx[i] < (b1 + b2).len() && (b1
        + b2)[idx[i]] == (a1 + a2)[i] by {
        if i < i1.len() {
            assert(idx[i] == i1[i]);
        } else {
            assert(idx[i] == i2[i - i1.len()] + b1.len());
        }
    }
    assert forall|i: int, j: int| 0 <= i < j < idx.len() implies #[trigger] idx[i] < #[trigger] idx[j] by {
        if j < i1.len() {
            assert(idx[i] == i1[i] && idx[j] == i1[j]);
        } else if i < i1.len() {
            assert(idx[i] == i1[i]);
            assert(idx[j] == i2[j - i1.len()] + b1.len());
        } else {
            assert(idx[i] == i2[i - i1.len()] + b1.len());
            assert(idx[j] == i2[j - i1.len()] + b1.len());
        }
    }
    idx
}

proof fn lemma_rule_verdicts_concat(
    a: Seq<RuleKind>,
    b: Seq<RuleKind>,
    parent: Option<ContractDef>,
    source: ParseSource,
    comments: Seq<NatspecView>,
)
    ensures
        rule_verdicts(a + b, parent, source, comments) == rule_verdicts(a, parent, source, comments)
            + rule_verdicts(b, parent, source, comments),
    decreases b.len(),
{
    if b.len() == 0 {
        assert(a + b =~= a);
        assert(rule_verdicts(a, parent, source, comments) + Seq::<ViolationView>::empty()
            =~= rule_verdicts(a, parent, source, comments));
    } else {
        lemma_rule_verdicts_concat(a, b.drop_last(), parent, source, comments);
        assert((a + b).drop_last() =~= a + b.drop_last());
        assert((a + b).last() == b.last());
        let x = rule_verdicts(a, parent, source, comments);
        let y = rule_verdicts(b.drop_last(), parent, source, comments);
        assert forall|v: ViolationView| (x + y).push(v) =~= x + y.push(v) by {}
    }
}

proof fn lemma_verdicts_picked(
    a: Seq<RuleKind>,
    b: Seq<RuleKind>,
    parent: Option<ContractDef>,
    source: ParseSource,
    comments: Seq<NatspecView>,
) -> (idx: Seq<int>)
    ensures
        picks(
            rule_verdicts(a, parent, source, comments),
            rule_verdicts(a + b, parent, source, comments),
            idx,
        ),
{
    lemma_rule_verdicts_concat(a, b, parent, source, comments);
    lemma_picks_prefix(rule_verdicts(a, parent, source, comments), rule_verdicts(b, parent, source, comments))
}

proof fn lemma_leaves_picked(
    leaves: Seq<LeafShape>,
    parent: Option<ContractDef>,
    a: Seq<RuleKind>,
    b: Seq<RuleKind>,
) -> (idx: Seq<int>)
    ensures
        picks(leaves_violations(leaves, parent, a), leaves_violations(leaves, parent, a + b), idx),
    decreases leaves.len(),
{
    if leaves.len() == 0 {
        Seq::empty()
    } else {
        let l = leaves.last();
        let i1 = lemma_leaves_picked(leaves.drop_last(), parent, a, b);
        let i2 = lemma_verdicts_picked(a, b, parent, l.source, l.comments);
        lemma_picks_concat(
            leaves_violations(leaves.drop_last(), parent, a),
            leaves_violations(leaves.drop_last(), parent, a + b),
            i1,
            rule_verdicts(a, parent, l.source, l.comments),
            rule_verdicts(a + b, parent, l.source, l.comments),
            i2,
        )
    }
}

proof fn lemma_shapes_picked(shapes: Seq<ItemShape>, a: Seq<RuleKind>, b: Seq<RuleKind>) -> (idx: Seq<int>)
    ensures
        picks(shapes_violations(shapes, a), shapes_violations(shapes, a + b), idx),
    decreases shapes.len(),
{
    if shapes.len() == 0 {
        Seq::empty()
    } else {
        let last = shapes.last();
        let parent = crate::linter::contract_of(last.source);
        let i1 = lemma_shapes_picked(shapes.drop_last(), a, b);
        let i2 = lemma_verdicts_picked(a, b, None, last.source, last.comments);
        let i3 = lemma_leaves_picked(last.children, parent, a, b);
        let i4 = lemma_picks_concat(
            rule_verdicts(a, None, last.source, last.comments),
            rule_verdicts(a + b, None, last.source, last.comments),
            i2,
            leaves_violations(last.children, parent, a),
            leaves_violations(last.children, parent, a + b),
            i3,
        );
        lemma_picks_concat(
            shapes_violations(shapes.drop_last(), a),
            shapes_violations(shapes.drop_last(), a + b),
            i1,
            shape_violations(last, a),
            shape_violations(last, a + b),
            i4,
        )
    }
}

/// Adding rules to a set never removes or reorders what linting the items of a source
/// reports: it only adds violations.
pub proof fn lemma_more_rules_keep_violations(shapes: Seq<ItemShape>, a: Seq<RuleKind>, b: Seq<RuleKind>)
    ensures
        subsequence(shapes_violations(shapes, a), shapes_violations(shapes, a + b)),
{
    let idx = lemma_shapes_picked(shapes, a, b);
    assert(picks(shapes_violations(shapes, a), shapes_violations(shapes, a + b), idx));
}

proof fn lemma_picks_push<T>(a: Seq<T>, b: Seq<T>, idx: Seq<int>, x: T)
    requires
        picks(a, b, idx),
    ensures
        picks(a, b.push(x), idx),
{
    assert forall|i: int| 0 <= i < idx.len() implies 0 <= #[trigger] idx[i] < b.push(x).len()
        && b.push(x)[idx[i]] == a[i] by {
        assert(b.push(x)[idx[i]] == b[idx[i]]);
    }
}

proof fn lemma_picks_kept(
    a: Seq<(ViolationView, int)>,
    b: Seq<(ViolationView, int)>,
    idx: Seq<int>,
    off: spec_fn(int, Seq<char>) -> bool,
) -> (out: Seq<int>)
    requires
        picks(a, b, idx),
    ensures
        picks(kept(a, off), kept(b, off), out),
    decreases b.len(),
{
    if b.len() == 0 {
        if a.len() > 0 {
            assert(0 <= idx[0] < b.len());
        }
        Seq::empty()
    } else if idx.len() > 0 && idx.last() == b.len() - 1 {
        let n = idx.len() - 1;
        assert(a.last() == b.last()) by {
            assert(b[idx[n]] == a[n]);
        }
        let ad = a.drop_last();
        let bd = b.drop_last();
        let id = idx.drop_last();
        assert forall|i: int| 0 <= i < id.len() implies 0 <= #[trigger] id[i] < bd.len() && bd[id[i]] == ad[i] by {
            assert(id[i] == idx[i]);
            assert(idx[i] < idx[n]);
        }
        let inner = lemma_picks_kept(ad, bd, id, off);
        if off(b.last().1, b.last().0.rule_name) {
            inner
        } else {
            let ka = kept(ad, off);
            let kb = kept(bd, off);
            let out = inner.push(kb.len() as int);
            assert forall|i: int| 0 <= i < out.len() implies 0 <= #[trigger] out[i] < kb.push(b.last()).len()
                && kb.push(b.last())[out[i]] == ka.push(a.last())[i] by {
                if i < inner.len() {
                    assert(out[i] == inner[i]);
                }
            }
            assert forall|i: int, j: int| 0 <= i < j < out.len() implies #[trigger] out[i] < #[trigger] out[j] by {
                if j < inner.len() {
                    assert(out[i] == inner[i] && out[j] == inner[j]);
                } else {
                    assert(out[i] == inner[i]);
                }
            }
            out
        }
    } else {
        let bd = b.drop_last();
        assert forall|i: int| 0 <= i < idx.len() implies 0 <= #[trigger] idx[i] < bd.len() && bd[idx[i]] == a[i] by {
            if idx[i] == b.len() - 1 {
                if i < idx.len() - 1 {
                    assert(idx[i] < idx[idx.len() - 1]);
                }
            }
        }
        let inner = lemma_picks_kept(a, bd, idx, off);
        if !off(b.last().1, b.last().0.rule_name) {
            lemma_picks_push(kept(a, off), kept(bd, off), inner, b.last());
        }
        inner
    }
}

proof fn lemma_picks_with_lines(a: Seq<ViolationView>, b: Seq<ViolationView>, idx: Seq<int>, src: Seq<u8>)
    requires
        picks(a, b, idx),
    ensures
        picks(with_lines(a, src), with_lines(b, src), idx),
{
}

/// Adding rules to a set never removes or reorders what linting a source reports: where
/// linting succeeds with both sets, the violations found with the smaller set are those found
/// with the larger one with some left out, in the same order, each with the same line.
pub proof fn lemma_lint_more_rules(
    content: &str,
    a: Seq<RuleKind>,
    b: Seq<RuleKind>,
    x: Vec<(Violation, usize)>,
    y: Vec<(Violation, usize)>,
)
    requires
        lint_outcome(content, a, Ok(x)),
        lint_outcome(content, a + b, Ok(y)),
    ensures
        subsequence(pair_views(x@), pair_views(y@)),
{
    match solidity_parse(content@) {
        Ok((unit, raw)) => {
            let shapes = parts_walk(unit.0@, raw, 0).0;
            let src = content.spec_bytes();
            let off = |line: int, rule: Seq<char>| switched_off(content@, line, rule);
            let i1 = lemma_shapes_picked(shapes, a, b);
            lemma_picks_with_lines(shapes_violations(shapes, a), shapes_violations(shapes, a + b), i1, src);
            let i2 = lemma_picks_kept(
                with_lines(shapes_violations(shapes, a), src),
                with_lines(shapes_violations(shapes, a + b), src),
                i1,
                off,
            );
            assert(picks(pair_views(x@), pair_views(y@), i2));
        },
        Err(_) => {},
    }
}

/// Some comment of `c` carries tag `t`.
pub open spec fn carries(c: Seq<NatspecView>, t: TagView) -> bool {
    exists|j: int| 0 <= j < c.len() && (#[trigger] c[j]).tag == t
}

/// Two different comments of `c` carry tag `t`.
pub open spec fn carries_twice(c: Seq<NatspecView>, t: TagView) -> bool {
    exists|i: int, j: int| 0 <= i < j < c.len() && (#[trigger] c[i]).tag == t && (#[trigger] c[j]).tag == t
}

proof fn lemma_with_tag_count(c: Seq<NatspecView>, t: TagView)
    ensures
        (with_tag(c, t).len() == 0) == !carries(c, t),
        (with_tag(c, t).len() > 1) == carries_twice(c, t),
        forall|x: NatspecView| #[trigger] with_tag(c, t).contains(x) == (c.contains(x) && x.tag == t),
    decreases c.len(),
{
    if c.len() > 0 {
        let rest = c.drop_last();
        lemma_with_tag_count(rest, t);
        let w = with_tag(c, t);
        let wr = with_tag(rest, t);
        if carries(rest, t) {
            let j = choose|j: int| 0 <= j < rest.len() && (#[trigger] rest[j]).tag == t;
            assert(c[j] == rest[j]);
        }
        if carries(c, t) {
            let j = choose|j: int| 0 <= j < c.len() && (#[trigger] c[j]).tag == t;
            if j < rest.len() {
                assert(rest[j] == c[j]);
            }
        }
        if carries_twice(rest, t) {
            let (i, j) = choose|i: int, j: int| 0 <= i < j < rest.len() && (#[trigger] rest[i]).tag == t && (#[trigger] rest[j]).tag == t;
            assert(c[i] == rest[i] && c[j] == rest[j]);
        }
        if carries_twice(c, t) {
            let (i, j) = choose|i: int, j: int| 0 <= i < j < c.len() && (#[trigger] c[i]).tag == t && (#[trigger] c[j]).tag == t;
            assert(rest[i] == c[i]);
            if j < rest.len() {
                assert(rest[j] == c[j]);
            } else {
                assert(carries(rest, t));
            }
        }
        if c.last().tag == t && carries(rest, t) {
            let j = choose|j: int| 0 <= j < rest.len() && (#[trigger] rest[j]).tag == t;
            assert(c[j] == rest[j]);
            assert(carries_twice(c, t)) by {
                assert(c[c.len() - 1].tag == t);
            }
        }
        if c.last().tag == t {
            assert(w == wr.push(c.last()));
        } else {
            assert(w == wr);
        }
        assert forall|x: NatspecView| #[trigger] w.contains(x) == (c.contains(x) && x.tag == t) by {
            if w.contains(x) {
                let j = choose|j: int| 0 <= j < w.len() && w[j] == x;
                if c.last().tag == t && j == w.len() - 1 {
                    assert(c[c.len() - 1] == x);
                } else {
                    assert(wr[j] == x);
                    assert(wr.contains(x));
                    let q = choose|q: int| 0 <= q < rest.len() && rest[q] == x;
                    assert(c[q] == x);
                }
            }
            if c.contains(x) && x.tag == t {
                let q = choose|q: int| 0 <= q < c.len() && c[q] == x;
                if q < rest.len() {
                    assert(rest[q] == x);
                    assert(rest.contains(x));
                    assert(with_tag(rest, t).contains(x));
                    let j = choose|j: int| 0 <= j < wr.len() && wr[j] == x;
                    assert(w[j] == x);
                } else {
                    assert(w[w.len() - 1] == x);
                }
            }
        }
    }
}

/// The tag that a rule on required comments asks for.
pub open spec fn required_tag(k: RuleKind) -> Option<TagView> {
    match k {
        RuleKind::ContractMissingTitle => Some(TagView::Title),
        RuleKind::EnumMissingTitle => Some(TagView::Title),
        RuleKind::ErrorMissingNotice => Some(TagView::Notice),
        RuleKind::StructMissingTitle => Some(TagView::Title),
        _ => None,
    }
}

/// The tag that a rule on forbidden comments forbids.
pub open spec fn forbidden_tag(k: RuleKind) -> Option<TagView> {
    match k {
        RuleKind::ContractNoInheritdoc => Some(TagView::Inheritdoc),
        RuleKind::ContractNoParam => Some(TagView::Param),
        RuleKind::ErrorNoAuthor => Some(TagView::Author),
        RuleKind::ErrorNoReturn => Some(TagView::Return),
        RuleKind::ErrorNoTitle => Some(TagView::Title),
        RuleKind::VariableNoAuthor => Some(TagView::Author),
        RuleKind::VariableNoTitle => Some(TagView::Title),
        _ => None,
    }
}

/// The tag that a rule on repeated comments allows at most once.
pub open spec fn single_tag(k: RuleKind) -> Option<TagView> {
    match k {
        RuleKind::ContractTooManyNotice => Some(TagView::Notice),
        RuleKind::ContractTooManyTitle => Some(TagView::Title),
        RuleKind::EnumTooManyTitle => Some(TagView::Title),
        RuleKind::EventTooManyNotice => Some(TagView::Notice),
        RuleKind::FunctionTooManyNotice => Some(TagView::Notice),
        RuleKind::VariableTooManyInheritdoc => Some(TagView::Inheritdoc),
        RuleKind::VariableTooManyNotice => Some(TagView::Notice),
        _ => None,
    }
}

/// A rule on a required tag reports a definition of its kind exactly when none of its
/// comments carries the tag, whatever other tags they carry; it reports the missing tag, at
/// the definition, under its own name.
pub proof fn lemma_required_tag(
    k: RuleKind,
    parent: Option<ContractDef>,
    source: ParseSource,
    comments: Seq<NatspecView>,
)
    requires
        required_tag(k) is Some,
        source.spec_kind() == k.spec_target(),
    ensures
        (k.verdict(parent, source, comments) is Some) == !carries(comments, required_tag(k)->0),
        k.verdict(parent, source, comments) matches Some(v) ==> v.error == ErrorView::MissingComment(
            required_tag(k)->0,
        ) && v.loc == source.spec_loc() && v.rule_name == k.spec_name()@,
{
    lemma_with_tag_count(comments, required_tag(k)->0);
}

/// A rule on a forbidden tag reports a definition of its kind exactly when one or more of its
/// comments carries the tag; it reports the forbidden tag, at the definition, under its own
/// name.
pub proof fn lemma_forbidden_tag(
    k: RuleKind,
    parent: Option<ContractDef>,
    source: ParseSource,
    comments: Seq<NatspecView>,
)
    requires
        forbidden_tag(k) is Some,
        source.spec_kind() == k.spec_target(),
    ensures
        (k.verdict(parent, source, comments) is Some) == carries(comments, forbidden_tag(k)->0),
        k.verdict(parent, source, comments) matches Some(v) ==> v.error == ErrorView::IllegalComment(
            forbidden_tag(k)->0,
        ) && v.loc == source.spec_loc() && v.rule_name == k.spec_name()@,
{
    lemma_with_tag_count(comments, forbidden_tag(k)->0);
}

/// A rule on a tag allowed once reports a definition of its kind exactly when two different
/// comments carry the tag; it reports the repeated tag, at the definition, under its own name.
pub proof fn lemma_single_tag(
    k: RuleKind,
    parent: Option<ContractDef>,
    source: ParseSource,
    comments: Seq<NatspecView>,
)
    requires
        single_tag(k) is Some,
        source.spec_kind() == k.spec_target(),
    ensures
        (k.verdict(parent, source, comments) is Some) == carries_twice(comments, single_tag(k)->0),
        k.verdict(parent, source, comments) matches Some(v) ==> v.error == ErrorView::TooManyComments(
            single_tag(k)->0,
        ) && v.loc == source.spec_loc() && v.rule_name == k.spec_name()@,
{
    lemma_with_tag_count(comments, single_tag(k)->0);
}

/// The notice rules for functions and variables report a definition exactly when none of its
/// comments carries `@notice` and no `@inheritdoc` comment names a base.
pub proof fn lemma_notice_required(
    k: RuleKind,
    parent: Option<ContractDef>,
    source: ParseSource,
    comments: Seq<NatspecView>,
)
    requires
        k is FunctionMissingNotice || k is VariableMissingNotice,
        source.spec_kind() == k.spec_target(),
    ensures
        (k.verdict(parent, source, comments) is Some) == (!carries(comments, TagView::Notice)
            && inheritdoc_base(comments) is None),
        k.verdict(parent, source, comments) matches Some(v) ==> v.error == ErrorView::MissingComment(
            TagView::Notice,
        ) && v.loc == source.spec_loc() && v.rule_name == k.spec_name()@,
{
    lemma_with_tag_count(comments, TagView::Notice);
}

/// Some comment of `c` that carries tag `t` has exactly `name` as its first word (the word
/// before the first space, after leading whitespace).
pub open spec fn names_exactly(c: Seq<NatspecView>, t: TagView, name: Seq<char>) -> bool {
    exists|j: int|
        0 <= j < c.len() && (#[trigger] c[j]).tag == t && (crate::comments::split_first_word(
            c[j].value,
        ) matches Some((w, _)) && w == name)
}

proof fn lemma_documents_exact(c: Seq<NatspecView>, t: TagView)
    ensures
        forall|name: Seq<char>| #[trigger] documents(with_tag(c, t), name) == names_exactly(c, t, name),
{
    lemma_with_tag_count(c, t);
    let w = with_tag(c, t);
    assert forall|name: Seq<char>| #[trigger] documents(w, name) == names_exactly(c, t, name) by {
        if documents(w, name) {
            let j = choose|j: int|
                0 <= j < w.len() && (#[trigger] crate::comments::split_first_word(w[j].value) matches Some(
                    (x, _),
                ) && x == name);
            assert(w.contains(w[j]));
            let q = choose|q: int| 0 <= q < c.len() && c[q] == w[j];
            assert(c[q].tag == t);
        }
        if names_exactly(c, t, name) {
            let q = choose|q: int|
                0 <= q < c.len() && (#[trigger] c[q]).tag == t && (crate::comments::split_first_word(
                    c[q].value,
                ) matches Some((x, _)) && x == name);
            assert(c.contains(c[q]));
            assert(w.contains(c[q]));
            let j = choose|j: int| 0 <= j < w.len() && w[j] == c[q];
            assert(crate::comments::split_first_word(w[j].value) matches Some((x, _)) && x == name);
        }
    }
}

/// An error passes `MissingParam` exactly when it has as many `@param` comments as
/// parameters and each parameter has a name that is exactly the first word of some `@param`
/// comment; a comment whose first word merely starts with the name documents nothing.
pub proof fn lemma_error_params_named(item: ErrorDef, comments: Seq<NatspecView>)
    ensures
        errors::missing_param::MissingParam::spec_check(item, comments) is None <==> {
            &&& with_tag(comments, TagView::Param).len() == item.fields@.len()
            &&& forall|i: int|
                0 <= i < item.fields@.len() ==> ((#[trigger] item.fields@[i]).name matches Some(id)
                    && names_exactly(comments, TagView::Param, id.name@))
        },
{
    lemma_error_params_documented(item, comments);
    lemma_documents_exact(comments, TagView::Param);
}

/// A struct passes `MissingParams` exactly when it has as many `@param` comments as fields
/// and each field has a name that is exactly the first word of some `@param` comment.
pub proof fn lemma_struct_fields_named(item: StructDef, comments: Seq<NatspecView>)
    ensures
        structs::missing_params::MissingParams::spec_check(item, comments) is None <==> {
            &&& with_tag(comments, TagView::Param).len() == item.fields@.len()
            &&& forall|i: int|
                0 <= i < item.fields@.len() ==> ((#[trigger] item.fields@[i]).name matches Some(id)
                    && names_exactly(comments, TagView::Param, id.name@))
        },
{
    lemma_struct_fields_documented(item, comments);
    lemma_documents_exact(comments, TagView::Param);
}

/// An enum passes `MissingVariant` exactly when it has as many `@custom:variant` comments as
/// variants and each variant has a name that is exactly the first word of some such comment.
pub proof fn lemma_enum_variants_named(item: EnumDef, comments: Seq<NatspecView>)
    ensures
        enums::missing_variant::MissingVariant::spec_check(item, comments) is None <==> {
            &&& with_tag(comments, variant_tag()).len() == item.values@.len()
            &&& forall|i: int|
                0 <= i < item.values@.len() ==> ((#[trigger] item.values@[i]) matches Some(id)
                    && names_exactly(comments, variant_tag(), id.name@))
        },
{
    lemma_enum_variants_documented(item, comments);
    lemma_documents_exact(comments, variant_tag());
}

/// The comments of `leaf` are those of the doc comments from some point no earlier than `lo`
/// to the start of its definition.
pub open spec fn read_from_after(leaf: LeafShape, raw: Seq<RawCommentView>, lo: usize) -> bool {
    exists|a: usize| lo <= a && #[trigger] docs_between(raw, a, leaf.source.spec_loc()->1) == leaf.comments
}

proof fn lemma_members_read_after(ms: Seq<ContractMember>, raw: Seq<RawCommentView>, start: usize, lo: usize)
    requires
        lo <= start,
        forall|i: int|
            0 <= i < ms.len() ==> (#[trigger] member_source(ms[i]) matches Some(s) ==> lo <= s.spec_loc()->2),
    ensures
        lo <= members_walk(ms, raw, start).1,
        forall|k: int|
            0 <= k < members_walk(ms, raw, start).0.len() ==> #[trigger] read_from_after(
                members_walk(ms, raw, start).0[k],
                raw,
                lo,
            ),
    decreases ms.len(),
{
    if ms.len() > 0 {
        let rest = ms.drop_last();
        assert forall|i: int| 0 <= i < rest.len() implies (#[trigger] member_source(rest[i]) matches Some(s)
            ==> lo <= s.spec_loc()->2) by {
            assert(rest[i] == ms[i]);
        }
        lemma_members_read_after(rest, raw, start, lo);
        let (before, d) = members_walk(rest, raw, start);
        let w = members_walk(ms, raw, start).0;
        assert(member_source(ms[ms.len() - 1]) == member_source(ms.last()));
        match member_source(ms.last()) {
            Some(src) => {
                assert forall|k: int| 0 <= k < w.len() implies #[trigger] read_from_after(w[k], raw, lo) by {
                    if k < before.len() {
                        assert(w[k] == before[k]);
                        assert(read_from_after(before[k], raw, lo));
                    } else {
                        assert(w[k].comments == docs_between(raw, d, src.spec_loc()->1));
                        assert(docs_between(raw, d, w[k].source.spec_loc()->1) == w[k].comments);
                    }
                }
            },
            None => {
                assert forall|k: int| 0 <= k < w.len() implies #[trigger] read_from_after(w[k], raw, lo) by {
                    assert(w[k] == before[k]);
                    assert(read_from_after(before[k], raw, lo));
                }
            },
        }
    }
}

/// The comments of each part of a contract come from the doc comments of a range that begins
/// no earlier than the contract itself (at its start, or at the end of an earlier part) and
/// ends at the part: no doc comment that stands before the contract documents one of its
/// parts. This holds wherever the parts of the contract end no earlier than it starts.
pub proof fn lemma_contract_parts_read_inside(
    ps: Seq<SourceItem>,
    c: ContractDef,
    ms: Vec<ContractMember>,
    raw: Seq<RawCommentView>,
    doc_start: usize,
    k: int,
)
    requires
        forall|i: int|
            0 <= i < ms@.len() ==> (#[trigger] member_source(ms@[i]) matches Some(s) ==> c.loc->1
                <= s.spec_loc()->2),
        0 <= k < parts_walk(ps.push(SourceItem::Contract(c, ms)), raw, doc_start).0.last().children.len(),
    ensures
        read_from_after(
            parts_walk(ps.push(SourceItem::Contract(c, ms)), raw, doc_start).0.last().children[k],
            raw,
            c.loc->1,
        ),
{
    let all = ps.push(SourceItem::Contract(c, ms));
    assert(all.drop_last() =~= ps);
    assert(all.last() == SourceItem::Contract(c, ms));
    let shape = parts_walk(all, raw, doc_start).0.last();
    assert(shape.children == members_walk(ms@, raw, c.loc->1).0);
    lemma_members_read_after(ms@, raw, c.loc->1, c.loc->1);
    assert(read_from_after(shape.children[k], raw, c.loc->1));
}

/// Some comment of `c` that carries tag `t` has exactly `name` as its first word, where a
/// comment without a space counts as having the empty word.
pub open spec fn names_exactly_or_empty(c: Seq<NatspecView>, t: TagView, name: Seq<char>) -> bool {
    exists|j: int|
        0 <= j < c.len() && (#[trigger] c[j]).tag == t && match crate::comments::split_first_word(
            c[j].value,
        ) {
            Some((w, _)) => w == name,
            None => name.len() == 0,
        }
}

proof fn lemma_documents_or_empty_exact(c: Seq<NatspecView>, t: TagView)
    ensures
        forall|name: Seq<char>| #[trigger] documents_or_empty(with_tag(c, t), name)
            == names_exactly_or_empty(c, t, name),
{
    lemma_with_tag_count(c, t);
    let w = with_tag(c, t);
    assert forall|name: Seq<char>| #[trigger] documents_or_empty(w, name) == names_exactly_or_empty(c, t, name) by {
        if documents_or_empty(w, name) {
            let j = choose|j: int| 0 <= j < w.len() && #[trigger] crate::rules::first_word_or_empty(w[j].value) == name;
            assert(w.contains(w[j]));
            let q = choose|q: int| 0 <= q < c.len() && c[q] == w[j];
            assert(c[q].tag == t);
        }
        if names_exactly_or_empty(c, t, name) {
            let q = choose|q: int|
                0 <= q < c.len() && (#[trigger] c[q]).tag == t && match crate::comments::split_first_word(
                    c[q].value,
                ) {
                    Some((x, _)) => x == name,
                    None => name.len() == 0,
                };
            assert(c.contains(c[q]));
            assert(w.contains(c[q]));
            let j = choose|j: int| 0 <= j < w.len() && w[j] == c[q];
            assert(crate::rules::first_word_or_empty(w[j].value) == name);
        }
    }
}

/// A plain function or constructor (not a fallback or receive function) without an
/// `@inheritdoc` comment naming a base passes `MissingParams` exactly when it has as many
/// `@param` comments as parameters and each named parameter is exactly the first word of some
/// `@param` comment (one without a space counting as having the empty word).
pub proof fn lemma_function_params_named(func: FunctionDef, comments: Seq<NatspecView>)
    requires
        !(func.ty is Receive || func.ty is Fallback),
        inheritdoc_base(comments) is None,
    ensures
        functions::missing_params::MissingParams::spec_check(func, comments) is None <==> {
            &&& with_tag(comments, TagView::Param).len() == func.params@.len()
            &&& forall|i: int|
                0 <= i < func.params@.len() ==> (functions::missing_params::param_name(
                    #[trigger] func.params@[i],
                ) matches Some(n) ==> names_exactly_or_empty(comments, TagView::Param, n))
        },
{
    lemma_function_params_documented(func, comments);
    lemma_documents_or_empty_exact(comments, TagView::Param);
}

/// A plain function without an `@inheritdoc` comment naming a base passes `MissingReturn`
/// exactly when it has as many `@return` comments as return variables and each named return
/// variable is exactly the first word of some `@return` comment.
pub proof fn lemma_function_returns_named(func: FunctionDef, comments: Seq<NatspecView>)
    requires
        func.ty is Function,
        inheritdoc_base(comments) is None,
    ensures
        functions::missing_return::MissingReturn::spec_check(func, comments) is None <==> {
            &&& with_tag(comments, TagView::Return).len() == func.returns@.len()
            &&& forall|i: int|
                0 <= i < func.returns@.len() ==> (functions::missing_params::param_name(
                    #[trigger] func.returns@[i],
                ) matches Some(n) ==> names_exactly_or_empty(comments, TagView::Return, n))
        },
{
    lemma_function_returns_documented(func, comments);
    lemma_documents_or_empty_exact(comments, TagView::Return);
}

} // verus!
