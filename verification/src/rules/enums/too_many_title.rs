//! The `TooManyTitle` rule for enums.
use vstd::prelude::*;

use crate::comments::{CommentTag, CommentsRef, NatspecView, TagView};
use crate::items::ParseItem;
use crate::model::EnumDef;
use crate::rules::{check_too_many_comments, too_many_comments_verdict};
use crate::violation::{opt_violation_view, Violation, ViolationView};

verus! {

/// This rule allows at most one `@title` comment on enums.
pub struct TooManyTitle;

impl TooManyTitle {
    pub const NAME: &'static str = "TooManyTitle";

    pub const DESCRIPTION: &'static str = "Enums must not have more than one title comment.";

    /// The verdict of the rule on `item` with `comments`.
    pub open spec fn spec_check(item: EnumDef, comments: Seq<NatspecView>) -> Option<ViolationView> {
        too_many_comments_verdict(Self::NAME, Self::DESCRIPTION, TagView::Title, item.loc, comments)
    }

    /// Checks `item`, documented by `comments`, against the rule.
    pub fn check(_parent: Option<&ParseItem>, item: &EnumDef, comments: &CommentsRef) -> (r: Option<
        Violation,
    >)
        ensures
            opt_violation_view(r) == Self::spec_check(*item, comments@),
    {
        check_too_many_comments(Self::NAME, Self::DESCRIPTION, CommentTag::Title, item.loc, comments)
    }
}

} // verus!
