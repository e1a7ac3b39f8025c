//! The `NoInheritdoc` rule for contracts.
use vstd::prelude::*;

use crate::comments::{CommentTag, CommentsRef, NatspecView, TagView};
use crate::items::ParseItem;
use crate::model::ContractDef;
use crate::rules::{check_no_comment, no_comment_verdict};
use crate::violation::{opt_violation_view, Violation, ViolationView};

verus! {

/// This rule forbids `@inheritdoc` comments on contracts.
pub struct NoInheritdoc;

impl NoInheritdoc {
    pub const NAME: &'static str = "NoInheritdoc";

    pub const DESCRIPTION: &'static str = "Contracts must not have an inheritdoc comment.";

    /// The verdict of the rule on `item` with `comments`.
    pub open spec fn spec_check(item: ContractDef, comments: Seq<NatspecView>) -> Option<ViolationView> {
        no_comment_verdict(Self::NAME, Self::DESCRIPTION, TagView::Inheritdoc, item.loc, comments)
    }

    /// Checks `item`, documented by `comments`, against the rule.
    pub fn check(_parent: Option<&ParseItem>, item: &ContractDef, comments: &CommentsRef) -> (r: Option<
        Violation,
    >)
        ensures
            opt_violation_view(r) == Self::spec_check(*item, comments@),
    {
        check_no_comment(Self::NAME, Self::DESCRIPTION, CommentTag::Inheritdoc, item.loc, comments)
    }
}

} // verus!
