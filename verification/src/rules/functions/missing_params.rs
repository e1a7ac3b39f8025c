//! The `MissingParams` rule for functions.
use vstd::prelude::*;

use crate::comments::{inheritdoc_base, with_tag, CommentTag, NatspecView, CommentsRef, TagView};
use crate::items::ParseItem;
use crate::model::{FunctionDef, FunctionKind, Span, Param};
use crate::rules::{documents_or_empty, is_documented_or_empty};
use crate::text::{first_index, lemma_first_index_is, lemma_first_index_none};
use crate::violation::{
    opt_violation_view, violation_view, ErrorView, Violation, ViolationError, ViolationView,
};

verus! {

/// This rule requires that all functions have their parameters documented or have an
/// inheritdoc comment.
pub struct MissingParams;

/// The name of a parameter or return variable, if it has one.
pub open spec fn param_name(p: (Span, Option<Param>)) -> Option<Seq<char>> {
    match p.1 {
        Some(par) => match par.name {
            Some(id) => Some(id.name@),
            None => None,
        },
        None => None,
    }
}

/// A named parameter (or return variable) whose name no comment of `docs` documents; unnamed
/// ones need no comment of their own.
pub open spec fn param_undocumented(p: (Span, Option<Param>), docs: Seq<NatspecView>) -> bool {
    match param_name(p) {
        Some(n) => !documents_or_empty(docs, n),
        None => false,
    }
}

/// The verdict on a parameter list `list` against the comments `docs` that carry `tag`:
/// there must be as many comments as entries, and the first named entry that no comment
/// names is reported, at the entry's location.
pub open spec fn param_list_verdict(
    rule_name: &'static str,
    description: &'static str,
    tag: TagView,
    loc: Span,
    list: Seq<(Span, Option<Param>)>,
    docs: Seq<NatspecView>,
) -> Option<ViolationView> {
    if list.len() < docs.len() {
        Some(violation_view(rule_name, description, ErrorView::TooManyComments(tag), loc))
    } else if list.len() > docs.len() {
        Some(violation_view(rule_name, description, ErrorView::MissingComment(tag), loc))
    } else {
        match first_index(list.len() as int, |i: int| param_undocumented(list[i], docs)) {
            Some(i) => Some(
                violation_view(
                    rule_name,
                    description,
                    ErrorView::MissingCommentFor(tag, param_name(list[i]).unwrap()),
                    list[i].0,
                ),
            ),
            None => None,
        }
    }
}

/// Checks a parameter list against the comments that carry `tag`.
pub fn check_param_list(
    rule_name: &'static str,
    description: &'static str,
    tag: CommentTag,
    loc: Span,
    list: &Vec<(Span, Option<Param>)>,
    comments: &CommentsRef,
) -> (r: Option<Violation>)
    ensures
        opt_violation_view(r) == param_list_verdict(
            rule_name,
            description,
            tag@,
            loc,
            list@,
            with_tag(comments@, tag@),
        ),
{
    let docs = comments.include_tag(tag.duplicate());
    if list.len() < docs.len() {
        return Some(
            Violation::new(rule_name, description, ViolationError::TooManyComments(tag), loc),
        );
    }
    if list.len() > docs.len() {
        return Some(
            Violation::new(rule_name, description, ViolationError::MissingComment(tag), loc),
        );
    }
    let n = list.len();
    let ghost bad = |i: int| param_undocumented(list@[i], with_tag(comments@, tag@));
    for i in 0..n
        invariant
            n == list@.len(),
            n == docs@.len(),
            docs@ == with_tag(comments@, tag@),
            bad == (|i: int| param_undocumented(list@[i], with_tag(comments@, tag@))),
            forall|j: int| 0 <= j < i ==> !#[trigger] bad(j),
    {
        let (ploc, param) = &list[i];
        let name = match param {
            Some(p) => match &p.name {
                Some(id) => Some(id.name.as_str()),
                None => None,
            },
            None => None,
        };
        match name {
            None => {
                assert(!bad(i as int));
            },
            Some(name) => {
                if !is_documented_or_empty(&docs, name) {
                    proof {
                        assert(bad(i as int));
                        lemma_first_index_is(n as int, bad, i as int);
                    }
                    return Some(
                        Violation::new(
                            rule_name,
                            description,
                            ViolationError::missing_comment_for(tag, name),
                            *ploc,
                        ),
                    );
                }
            },
        }
    }
    proof {
        lemma_first_index_none(n as int, bad);
    }
    None
}

impl MissingParams {
    pub const NAME: &'static str = "MissingParams";

    pub const DESCRIPTION: &'static str =
        "Functions must have their parameters documented or have an inheritdoc comment.";

    /// The verdict of the rule on `func` with `comments`: receive and fallback functions, and
    /// functions with an `@inheritdoc` comment naming a base, are exempt; otherwise the
    /// parameters must match the `@param` comments.
    pub open spec fn spec_check(func: FunctionDef, comments: Seq<NatspecView>) -> Option<
        ViolationView,
    > {
        if func.ty is Receive || func.ty is Fallback {
            None
        } else if inheritdoc_base(comments) is Some {
            None
        } else {
            param_list_verdict(
                Self::NAME,
                Self::DESCRIPTION,
                TagView::Param,
                func.loc,
                func.params@,
                with_tag(comments, TagView::Param),
            )
        }
    }

    /// Checks `func`, documented by `comments`, against the rule.
    pub fn check(_parent: Option<&ParseItem>, func: &FunctionDef, comments: &CommentsRef) -> (r:
        Option<Violation>)
        ensures
            opt_violation_view(r) == Self::spec_check(*func, comments@),
    {
        match func.ty {
            FunctionKind::Receive | FunctionKind::Fallback => return None,
            _ => {},
        }
        if comments.find_inheritdoc_base().is_some() {
            return None;
        }
        check_param_list(
            Self::NAME,
            Self::DESCRIPTION,
            CommentTag::Param,
            func.loc,
            &func.params,
            comments,
        )
    }
}

} // verus!
