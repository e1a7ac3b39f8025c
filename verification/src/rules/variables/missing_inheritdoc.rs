//! The `MissingInheritdoc` rule for state variables.
use vstd::prelude::*;

use crate::comments::{with_tag, CommentTag, NatspecView, CommentsRef, TagView};
use crate::items::{parent_contract, ParseItem};
use crate::model::{ContractDef, ContractKind, VariableAttr, VariableDef, VisibilityKind};
use crate::rules::functions::missing_inheritdoc::interface_or_library;
use crate::violation::{
    opt_violation_view, violation_view, ErrorView, Violation, ViolationError, ViolationView,
};

verus! {

/// This rule requires that all public variables have a inheritdoc comment.
pub struct MissingInheritdoc;

/// The attribute makes a variable public, external, or an override.
pub open spec fn exposing(a: VariableAttr) -> bool {
    match a {
        VariableAttr::Visibility(VisibilityKind::Public(_)) => true,
        VariableAttr::Visibility(VisibilityKind::External(_)) => true,
        VariableAttr::Override(_) => true,
        _ => false,
    }
}

/// Whether the attribute makes a variable public, external, or an override.
pub fn is_exposing(a: &VariableAttr) -> (r: bool)
    ensures
        r == exposing(*a),
{
    match a {
        VariableAttr::Visibility(VisibilityKind::Public(_)) => true,
        VariableAttr::Visibility(VisibilityKind::External(_)) => true,
        VariableAttr::Override(_) => true,
        _ => false,
    }
}

impl MissingInheritdoc {
    pub const NAME: &'static str = "MissingInheritdoc";

    pub const DESCRIPTION: &'static str =
        "Public and override variables must have an inheritdoc comment.";

    /// The verdict of the rule on `var`, inside `parent`, with `comments`: only variables of a
    /// contract or abstract contract that are public, external or overrides are checked, and
    /// they need an `@inheritdoc` comment.
    pub open spec fn spec_check(
        parent: Option<ContractDef>,
        var: VariableDef,
        comments: Seq<NatspecView>,
    ) -> Option<ViolationView> {
        match parent {
            None => None,
            Some(c) => if interface_or_library(c.ty) {
                None
            } else if !(exists|i: int|
                0 <= i < var.attrs@.len() && #[trigger] exposing(var.attrs@[i])) {
                None
            } else if with_tag(comments, TagView::Inheritdoc).len() == 0 {
                Some(
                    violation_view(
                        Self::NAME,
                        Self::DESCRIPTION,
                        ErrorView::MissingComment(TagView::Inheritdoc),
                        var.loc,
                    ),
                )
            } else {
                None
            },
        }
    }

    /// Checks `var`, a part of `parent` documented by `comments`, against the rule.
    pub fn check(parent: Option<&ParseItem>, var: &VariableDef, comments: &CommentsRef) -> (r:
        Option<Violation>)
        ensures
            opt_violation_view(r) == Self::spec_check(parent_contract(parent), *var, comments@),
    {
        let contract = match parent {
            Some(p) => match p.as_contract() {
                Some(c) => c,
                None => return None,
            },
            None => return None,
        };
        match contract.ty {
            ContractKind::Interface(_) | ContractKind::Library(_) => return None,
            ContractKind::Contract(_) | ContractKind::Abstract(_) => {},
        }
        let n = var.attrs.len();
        let mut exposed = false;
        for i in 0..n
            invariant
                n == var.attrs@.len(),
                exposed == exists|j: int| 0 <= j < i && #[trigger] exposing(var.attrs@[j]),
        {
            if is_exposing(&var.attrs[i]) {
                exposed = true;
            }
        }
        if !exposed {
            return None;
        }
        if comments.include_tag(CommentTag::Inheritdoc).is_empty() {
            return Some(
                Violation::new(
                    Self::NAME,
                    Self::DESCRIPTION,
                    ViolationError::MissingComment(CommentTag::Inheritdoc),
                    var.loc,
                ),
            );
        }
        None
    }
}

} // verus!
