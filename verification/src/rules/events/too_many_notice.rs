//! The `TooManyNotice` rule for events.
use vstd::prelude::*;

use crate::comments::{CommentTag, CommentsRef, NatspecView, TagView};
use crate::items::ParseItem;
use crate::model::EventDef;
use crate::rules::{check_too_many_comments, too_many_comments_verdict};
use crate::violation::{opt_violation_view, Violation, ViolationView};

verus! {

/// This rule allows at most one `@notice` comment on events.
pub struct TooManyNotice;

impl TooManyNotice {
    pub const NAME: &'static str = "TooManyNotice";

    pub const DESCRIPTION: &'static str = "Events must not have more than one notice comment.";

    /// The verdict of the rule on `item` with `comments`.
    pub open spec fn spec_check(item: EventDef, comments: Seq<NatspecView>) -> Option<ViolationView> {
        too_many_comments_verdict(Self::NAME, Self::DESCRIPTION, TagView::Notice, item.loc, comments)
    }

    /// Checks `item`, documented by `comments`, against the rule.
    pub fn check(_parent: Option<&ParseItem>, item: &EventDef, comments: &CommentsRef) -> (r: Option<
        Violation,
    >)
        ensures
            opt_violation_view(r) == Self::spec_check(*item, comments@),
    {
        check_too_many_comments(Self::NAME, Self::DESCRIPTION, CommentTag::Notice, item.loc, comments)
    }
}

} // verus!
