//! The `MissingReturn` rule for functions.
use vstd::prelude::*;

use crate::comments::{inheritdoc_base, with_tag, CommentTag, NatspecView, CommentsRef, TagView};
use crate::items::ParseItem;
use crate::model::{FunctionDef, FunctionKind};
use crate::rules::functions::missing_params::{check_param_list, param_list_verdict};
use crate::violation::{opt_violation_view, Violation, ViolationView};

verus! {

/// This rule requires that all functions have their return variables documented or have an
/// inheritdoc comment.
pub struct MissingReturn;

impl MissingReturn {
    pub const NAME: &'static str = "MissingReturn";

    pub const DESCRIPTION: &'static str =
        "Functions must have their return variables documented or have an inheritdoc comment.";

    /// The verdict of the rule on `func` with `comments`: only plain functions are checked,
    /// those with an `@inheritdoc` comment naming a base are exempt, and the return variables
    /// must match the `@return` comments.
    pub open spec fn spec_check(func: FunctionDef, comments: Seq<NatspecView>) -> Option<
        ViolationView,
    > {
        if !(func.ty is Function) {
            None
        } else if inheritdoc_base(comments) is Some {
            None
        } else {
            param_list_verdict(
                Self::NAME,
                Self::DESCRIPTION,
                TagView::Return,
                func.loc,
                func.returns@,
                with_tag(comments, TagView::Return),
            )
        }
    }

    /// Checks `func`, documented by `comments`, against the rule.
    pub fn check(_parent: Option<&ParseItem>, func: &FunctionDef, comments: &CommentsRef) -> (r:
        Option<Violation>)
        ensures
            opt_violation_view(r) == Self::spec_check(*func, comments@),
    {
        match func.ty {
            FunctionKind::Function => {},
            _ => return None,
        }
        if comments.find_inheritdoc_base().is_some() {
            return None;
        }
        check_param_list(
            Self::NAME,
            Self::DESCRIPTION,
            CommentTag::Return,
            func.loc,
            &func.returns,
            comments,
        )
    }
}

} // verus!
