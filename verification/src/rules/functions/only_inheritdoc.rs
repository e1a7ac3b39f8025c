//! The `OnlyInheritdoc` rule for functions: a function with an inheritdoc comment must have
//! no other comment. The rule is meant to be off by default.
use vstd::prelude::*;

use crate::comments::{inheritdoc_base, NatspecView, CommentsRef};
use crate::items::ParseItem;
use crate::model::FunctionDef;
use crate::violation::{
    opt_violation_view, violation_view, ErrorView, Violation, ViolationError, ViolationView,
};

verus! {

/// This rule requires that if a function has an inheritdoc comment, then it must be the only
/// comment.
pub struct OnlyInheritdoc;

impl OnlyInheritdoc {
    pub const NAME: &'static str = "OnlyInheritdoc";

    pub const DESCRIPTION: &'static str =
        "If a function has an inheritdoc comment, then it must be the only comment.";

    /// The verdict of the rule on `func` with `comments`: a function with an `@inheritdoc`
    /// comment naming a base must have no other comment.
    pub open spec fn spec_check(func: FunctionDef, comments: Seq<NatspecView>) -> Option<
        ViolationView,
    > {
        if inheritdoc_base(comments) is Some && comments.len() > 1 {
            Some(violation_view(Self::NAME, Self::DESCRIPTION, ErrorView::OnlyInheritdoc, func.loc))
        } else {
            None
        }
    }

    /// Checks `func`, documented by `comments`, against the rule.
    pub fn check(_parent: Option<&ParseItem>, func: &FunctionDef, comments: &CommentsRef) -> (r:
        Option<Violation>)
        ensures
            opt_violation_view(r) == Self::spec_check(*func, comments@),
    {
        if comments.find_inheritdoc_base().is_some() {
            if comments.len() <= 1 {
                return None;
            }
            return Some(
                Violation::new(
                    Self::NAME,
                    Self::DESCRIPTION,
                    ViolationError::OnlyInheritdoc,
                    func.loc,
                ),
            );
        }
        None
    }
}

} // verus!
