//! The `MissingNotice` rule for errors.
use vstd::prelude::*;

use crate::comments::{CommentTag, CommentsRef, NatspecView, TagView};
use crate::items::ParseItem;
use crate::model::ErrorDef;
use crate::rules::{check_missing_comment, missing_comment_verdict};
use crate::violation::{opt_violation_view, Violation, ViolationView};

verus! {

/// This rule requires a `@notice` comment on errors.
pub struct MissingNotice;

impl MissingNotice {
    pub const NAME: &'static str = "MissingNotice";

    pub const DESCRIPTION: &'static str = "Errors must have a notice comment.";

    /// The verdict of the rule on `item` with `comments`.
    pub open spec fn spec_check(item: ErrorDef, comments: Seq<NatspecView>) -> Option<ViolationView> {
        missing_comment_verdict(Self::NAME, Self::DESCRIPTION, TagView::Notice, item.loc, comments)
    }

    /// Checks `item`, documented by `comments`, against the rule.
    pub fn check(_parent: Option<&ParseItem>, item: &ErrorDef, comments: &CommentsRef) -> (r: Option<
        Violation,
    >)
        ensures
            opt_violation_view(r) == Self::spec_check(*item, comments@),
    {
        check_missing_comment(Self::NAME, Self::DESCRIPTION, CommentTag::Notice, item.loc, comments)
    }
}

} // verus!
