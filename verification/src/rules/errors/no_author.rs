//! The `NoAuthor` rule for errors.
use vstd::prelude::*;

use crate::comments::{CommentTag, CommentsRef, NatspecView, TagView};
use crate::items::ParseItem;
use crate::model::ErrorDef;
use crate::rules::{check_no_comment, no_comment_verdict};
use crate::violation::{opt_violation_view, Violation, ViolationView};

verus! {

/// This rule forbids `@author` comments on errors.
pub struct NoAuthor;

impl NoAuthor {
    pub const NAME: &'static str = "NoAuthor";

    pub const DESCRIPTION: &'static str = "Errors must not have an author comment.";

    /// The verdict of the rule on `item` with `comments`.
    pub open spec fn spec_check(item: ErrorDef, comments: Seq<NatspecView>) -> Option<ViolationView> {
        no_comment_verdict(Self::NAME, Self::DESCRIPTION, TagView::Author, item.loc, comments)
    }

    /// Checks `item`, documented by `comments`, against the rule.
    pub fn check(_parent: Option<&ParseItem>, item: &ErrorDef, comments: &CommentsRef) -> (r: Option<
        Violation,
    >)
        ensures
            opt_violation_view(r) == Self::spec_check(*item, comments@),
    {
        check_no_comment(Self::NAME, Self::DESCRIPTION, CommentTag::Author, item.loc, comments)
    }
}

} // verus!
