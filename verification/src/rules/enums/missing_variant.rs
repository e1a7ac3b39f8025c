//! The `MissingVariant` rule for enums.
//!
//! Solidity has no natspec tag for enum variants; this rule follows the practice of
//! documenting each variant with `@custom:variant <name> <description>`. The rule is meant to
//! be off by default.
use vstd::prelude::*;

use crate::comments::{variant_tag, with_tag, CommentTag, NatspecView, CommentsRef};
use crate::items::ParseItem;
use crate::model::{EnumDef, Ident};
use crate::rules::{documents, is_documented};
use crate::text::{first_index, lemma_first_index_is, lemma_first_index_none};
use crate::violation::{
    opt_violation_view, violation_view, ErrorView, Violation, ViolationError, ViolationView,
};

verus! {

/// This rule requires that enums do not miss any variants.
pub struct MissingVariant;

/// The variant has a name that a `@custom:variant` comment of `params` documents.
pub open spec fn variant_documented(value: Option<Ident>, params: Seq<NatspecView>) -> bool {
    match value {
        Some(id) => documents(params, id.name@),
        None => false,
    }
}

impl MissingVariant {
    pub const NAME: &'static str = "MissingVariant";

    pub const DESCRIPTION: &'static str = "Enums must document all variants.";

    /// The verdict of the rule on `item` with `comments`: there must be as many
    /// `@custom:variant` comments as variants, and the first variant (in order) that no such
    /// comment names is reported, or the first variant without a name.
    pub open spec fn spec_check(item: EnumDef, comments: Seq<NatspecView>) -> Option<
        ViolationView,
    > {
        let params = with_tag(comments, variant_tag());
        let values = item.values@;
        if values.len() < params.len() {
            Some(
                violation_view(
                    Self::NAME,
                    Self::DESCRIPTION,
                    ErrorView::TooManyComments(variant_tag()),
                    item.loc,
                ),
            )
        } else if values.len() > params.len() {
            Some(
                violation_view(
                    Self::NAME,
                    Self::DESCRIPTION,
                    ErrorView::MissingComment(variant_tag()),
                    item.loc,
                ),
            )
        } else {
            match first_index(values.len() as int, |i: int| !variant_documented(values[i], params)) {
                Some(i) => match values[i] {
                    Some(id) => Some(
                        violation_view(
                            Self::NAME,
                            Self::DESCRIPTION,
                            ErrorView::MissingCommentFor(variant_tag(), id.name@),
                            id.loc,
                        ),
                    ),
                    None => Some(
                        violation_view(
                            Self::NAME,
                            Self::DESCRIPTION,
                            ErrorView::ParseError("Variant name could not be parsed"@),
                            item.loc,
                        ),
                    ),
                },
                None => None,
            }
        }
    }

    /// Checks `item`, documented by `comments`, against the rule.
    pub fn check(_parent: Option<&ParseItem>, item: &EnumDef, comments: &CommentsRef) -> (r:
        Option<Violation>)
        ensures
            opt_violation_view(r) == Self::spec_check(*item, comments@),
    {
        let params = comments.include_tag(CommentTag::variant());
        if item.values.len() < params.len() {
            return Some(
                Violation::new(
                    Self::NAME,
                    Self::DESCRIPTION,
                    ViolationError::TooManyComments(CommentTag::variant()),
                    item.loc,
                ),
            );
        }
        if item.values.len() > params.len() {
            return Some(
                Violation::new(
                    Self::NAME,
                    Self::DESCRIPTION,
                    ViolationError::MissingComment(CommentTag::variant()),
                    item.loc,
                ),
            );
        }
        let n = item.values.len();
        let ghost bad = |i: int| !variant_documented(item.values@[i], with_tag(comments@, variant_tag()));
        for i in 0..n
            invariant
                n == item.values@.len(),
                n == params@.len(),
                params@ == with_tag(comments@, variant_tag()),
                bad == (|i: int| !variant_documented(item.values@[i], with_tag(comments@, variant_tag()))),
                forall|j: int| 0 <= j < i ==> !#[trigger] bad(j),
        {
            match &item.values[i] {
                None => {
                    proof {
                        assert(bad(i as int));
                        lemma_first_index_is(n as int, bad, i as int);
                    }
                    return Some(
                        Violation::new(
                            Self::NAME,
                            Self::DESCRIPTION,
                            ViolationError::parse_error("Variant name could not be parsed"),
                            item.loc,
                        ),
                    );
                },
                Some(id) => {
                    if !is_documented(&params, id.name.as_str()) {
                        proof {
                            assert(bad(i as int));
                            lemma_first_index_is(n as int, bad, i as int);
                        }
                        return Some(
                            Violation::new(
                                Self::NAME,
                                Self::DESCRIPTION,
                                ViolationError::missing_comment_for(
                                    CommentTag::variant(),
                                    id.name.as_str(),
                                ),
                                id.loc,
                            ),
                        );
                    }
                },
            }
        }
        proof {
            lemma_first_index_none(n as int, bad);
        }
        None
    }
}

} // verus!
