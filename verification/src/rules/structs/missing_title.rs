//! The `MissingTitle` rule for structs.
use vstd::prelude::*;

use crate::comments::{CommentTag, CommentsRef, NatspecView, TagView};
use crate::items::ParseItem;
use crate::model::StructDef;
use crate::rules::{check_missing_comment, missing_comment_verdict};
use crate::violation::{opt_violation_view, Violation, ViolationView};

verus! {

/// This rule requires a `@title` comment on structs.
pub struct MissingTitle;

impl MissingTitle {
    pub const NAME: &'static str = "MissingTitle";

    pub const DESCRIPTION: &'static str = "Structs must have a title comment.";

    /// The verdict of the rule on `item` with `comments`.
    pub open spec fn spec_check(item: StructDef, comments: Seq<NatspecView>) -> Option<ViolationView> {
        missing_comment_verdict(Self::NAME, Self::DESCRIPTION, TagView::Title, item.loc, comments)
    }

    /// Checks `item`, documented by `comments`, against the rule.
    pub fn check(_parent: Option<&ParseItem>, item: &StructDef, comments: &CommentsRef) -> (r: Option<
        Violation,
    >)
        ensures
            opt_violation_view(r) == Self::spec_check(*item, comments@),
    {
        check_missing_comment(Self::NAME, Self::DESCRIPTION, CommentTag::Title, item.loc, comments)
    }
}

} // verus!
