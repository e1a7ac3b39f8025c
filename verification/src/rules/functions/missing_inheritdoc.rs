//! The `MissingInheritdoc` rule for functions.
use vstd::prelude::*;

use crate::comments::{with_tag, CommentTag, NatspecView, CommentsRef, TagView};
use crate::items::{parent_contract, ParseItem};
use crate::model::{
    ContractDef, ContractKind, FunctionAttr, FunctionDef, FunctionKind, VisibilityKind,
};
use crate::violation::{
    opt_violation_view, violation_view, ErrorView, Violation, ViolationError, ViolationView,
};

verus! {

/// This rule requires that all public functions have a inheritdoc comment.
pub struct MissingInheritdoc;

/// The attribute makes a function public, external, or an override.
pub open spec fn exposing(a: FunctionAttr) -> bool {
    match a {
        FunctionAttr::Visibility(VisibilityKind::Public(_)) => true,
        FunctionAttr::Visibility(VisibilityKind::External(_)) => true,
        FunctionAttr::Override(_) => true,
        _ => false,
    }
}

/// Whether the attribute makes a function public, external, or an override.
pub fn is_exposing(a: &FunctionAttr) -> (r: bool)
    ensures
        r == exposing(*a),
{
    match a {
        FunctionAttr::Visibility(VisibilityKind::Public(_)) => true,
        FunctionAttr::Visibility(VisibilityKind::External(_)) => true,
        FunctionAttr::Override(_) => true,
        _ => false,
    }
}

/// The contract kind is an interface or a library.
pub open spec fn interface_or_library(ty: ContractKind) -> bool {
    ty is Interface || ty is Library
}

impl MissingInheritdoc {
    pub const NAME: &'static str = "MissingInheritdoc";

    pub const DESCRIPTION: &'static str =
        "Public and override functions must have an inheritdoc comment.";

    /// The verdict of the rule on `func`, inside `parent`, with `comments`: only plain
    /// functions of a contract or abstract contract that are public, external or overrides
    /// are checked, and they need an `@inheritdoc` comment.
    pub open spec fn spec_check(
        parent: Option<ContractDef>,
        func: FunctionDef,
        comments: Seq<NatspecView>,
    ) -> Option<ViolationView> {
        match parent {
            None => None,
            Some(c) => if interface_or_library(c.ty) {
                None
            } else if !(func.ty is Function) {
                None
            } else if !(exists|i: int|
                0 <= i < func.attributes@.len() && #[trigger] exposing(func.attributes@[i])) {
                None
            } else if with_tag(comments, TagView::Inheritdoc).len() == 0 {
                Some(
                    violation_view(
                        Self::NAME,
                        Self::DESCRIPTION,
                        ErrorView::MissingComment(TagView::Inheritdoc),
                        func.loc,
                    ),
                )
            } else {
                None
            },
        }
    }

    /// Checks `func`, a part of `parent` documented by `comments`, against the rule.
    pub fn check(parent: Option<&ParseItem>, func: &FunctionDef, comments: &CommentsRef) -> (r:
        Option<Violation>)
        ensures
            opt_violation_view(r) == Self::spec_check(parent_contract(parent), *func, comments@),
    {
        let contract = match parent {
            Some(p) => match p.as_contract() {
                Some(c) => c,
                None => return None,
            },
            None => return None,
        };
        match contract.ty {
            ContractKind::Interface(_) | ContractKind::Library(_) => return None,
            ContractKind::Contract(_) | ContractKind::Abstract(_) => {},
        }
        match func.ty {
            FunctionKind::Function => {},
            _ => return None,
        }
        let n = func.attributes.len();
        let mut exposed = false;
        for i in 0..n
            invariant
                n == func.attributes@.len(),
                exposed == exists|j: int| 0 <= j < i && #[trigger] exposing(func.attributes@[j]),
        {
            if is_exposing(&func.attributes[i]) {
                exposed = true;
            }
        }
        if !exposed {
            return None;
        }
        if comments.include_tag(CommentTag::Inheritdoc).is_empty() {
            return Some(
                Violation::new(
                    Self::NAME,
                    Self::DESCRIPTION,
                    ViolationError::MissingComment(CommentTag::Inheritdoc),
                    func.loc,
                ),
            );
        }
        None
    }
}

} // verus!
