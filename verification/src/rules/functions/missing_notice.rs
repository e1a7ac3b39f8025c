//! The `MissingNotice` rule for functions.
use vstd::prelude::*;

use crate::comments::{inheritdoc_base, CommentTag, NatspecView, CommentsRef, TagView};
use crate::items::ParseItem;
use crate::model::FunctionDef;
use crate::rules::{check_missing_comment, missing_comment_verdict};
use crate::violation::{opt_violation_view, Violation, ViolationView};

verus! {

/// This rule requires that all functions have a notice or an inheritdoc comment.
pub struct MissingNotice;

impl MissingNotice {
    pub const NAME: &'static str = "MissingNotice";

    pub const DESCRIPTION: &'static str = "Functions must have a notice or an inheritdoc comment.";

    /// The verdict of the rule on `func` with `comments`: functions with an `@inheritdoc`
    /// comment naming a base are exempt; others need a `@notice` comment.
    pub open spec fn spec_check(func: FunctionDef, comments: Seq<NatspecView>) -> Option<
        ViolationView,
    > {
        if inheritdoc_base(comments) is Some {
            None
        } else {
            missing_comment_verdict(Self::NAME, Self::DESCRIPTION, TagView::Notice, func.loc, comments)
        }
    }

    /// Checks `func`, documented by `comments`, against the rule.
    pub fn check(_parent: Option<&ParseItem>, func: &FunctionDef, comments: &CommentsRef) -> (r:
        Option<Violation>)
        ensures
            opt_violation_view(r) == Self::spec_check(*func, comments@),
    {
        if comments.find_inheritdoc_base().is_some() {
            return None;
        }
        check_missing_comment(Self::NAME, Self::DESCRIPTION, CommentTag::Notice, func.loc, comments)
    }
}

} // verus!
