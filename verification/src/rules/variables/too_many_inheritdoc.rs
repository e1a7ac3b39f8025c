//! The `TooManyInheritdoc` rule for variables.
use vstd::prelude::*;

use crate::comments::{CommentTag, CommentsRef, NatspecView, TagView};
use crate::items::ParseItem;
use crate::model::VariableDef;
use crate::rules::{check_too_many_comments, too_many_comments_verdict};
use crate::violation::{opt_violation_view, Violation, ViolationView};

verus! {

/// This rule allows at most one `@inheritdoc` comment on variables.
pub struct TooManyInheritdoc;

impl TooManyInheritdoc {
    pub const NAME: &'static str = "TooManyInheritdoc";

    pub const DESCRIPTION: &'static str = "Variables must not have more than one inheritdoc comment.";

    /// The verdict of the rule on `item` with `comments`.
    pub open spec fn spec_check(item: VariableDef, comments: Seq<NatspecView>) -> Option<ViolationView> {
        too_many_comments_verdict(Self::NAME, Self::DESCRIPTION, TagView::Inheritdoc, item.loc, comments)
    }

    /// Checks `item`, documented by `comments`, against the rule.
    pub fn check(_parent: Option<&ParseItem>, item: &VariableDef, comments: &CommentsRef) -> (r: Option<
        Violation,
    >)
        ensures
            opt_violation_view(r) == Self::spec_check(*item, comments@),
    {
        check_too_many_comments(Self::NAME, Self::DESCRIPTION, CommentTag::Inheritdoc, item.loc, comments)
    }
}

} // verus!
