//! The `MissingParams` rule for structs.
use vstd::prelude::*;

use crate::comments::{with_tag, CommentTag, NatspecView, CommentsRef, TagView};
use crate::items::ParseItem;
use crate::model::{StructDef, FieldDecl};
use crate::rules::{documents, is_documented};
use crate::text::{first_index, lemma_first_index_is, lemma_first_index_none};
use crate::violation::{
    opt_violation_view, violation_view, ErrorView, Violation, ViolationError, ViolationView,
};

verus! {

/// This rule requires that structs do not miss any parameters.
pub struct MissingParams;

/// The field has a name that a `@param` comment of `params` documents.
pub open spec fn field_documented(field: FieldDecl, params: Seq<NatspecView>) -> bool {
    match field.name {
        Some(id) => documents(params, id.name@),
        None => false,
    }
}

impl MissingParams {
    pub const NAME: &'static str = "MissingParams";

    pub const DESCRIPTION: &'static str = "Structs must document all parameters.";

    /// The verdict of the rule on `item` with `comments`: there must be as many `@param`
    /// comments as fields, and the first field (in order) that no `@param` comment names is
    /// reported, or the first field without a name.
    pub open spec fn spec_check(item: StructDef, comments: Seq<NatspecView>) -> Option<
        ViolationView,
    > {
        let params = with_tag(comments, TagView::Param);
        let fields = item.fields@;
        if fields.len() < params.len() {
            Some(
                violation_view(
                    Self::NAME,
                    Self::DESCRIPTION,
                    ErrorView::TooManyComments(TagView::Param),
                    item.loc,
                ),
            )
        } else if fields.len() > params.len() {
            Some(
                violation_view(
                    Self::NAME,
                    Self::DESCRIPTION,
                    ErrorView::MissingComment(TagView::Param),
                    item.loc,
                ),
            )
        } else {
            match first_index(fields.len() as int, |i: int| !field_documented(fields[i], params)) {
                Some(i) => match fields[i].name {
                    Some(id) => Some(
                        violation_view(
                            Self::NAME,
                            Self::DESCRIPTION,
                            ErrorView::MissingCommentFor(TagView::Param, id.name@),
                            id.loc,
                        ),
                    ),
                    None => Some(
                        violation_view(
                            Self::NAME,
                            Self::DESCRIPTION,
                            ErrorView::ParseError("Field name could not be parsed"@),
                            fields[i].loc,
                        ),
                    ),
                },
                None => None,
            }
        }
    }

    /// Checks `item`, documented by `comments`, against the rule.
    pub fn check(_parent: Option<&ParseItem>, item: &StructDef, comments: &CommentsRef) -> (r:
        Option<Violation>)
        ensures
            opt_violation_view(r) == Self::spec_check(*item, comments@),
    {
        let params = comments.include_tag(CommentTag::Param);
        if item.fields.len() < params.len() {
            return Some(
                Violation::new(
                    Self::NAME,
                    Self::DESCRIPTION,
                    ViolationError::TooManyComments(CommentTag::Param),
                    item.loc,
                ),
            );
        }
        if item.fields.len() > params.len() {
            return Some(
                Violation::new(
                    Self::NAME,
                    Self::DESCRIPTION,
                    ViolationError::MissingComment(CommentTag::Param),
                    item.loc,
                ),
            );
        }
        let n = item.fields.len();
        let ghost bad = |i: int| !field_documented(item.fields@[i], with_tag(comments@, TagView::Param));
        for i in 0..n
            invariant
                n == item.fields@.len(),
                n == params@.len(),
                params@ == with_tag(comments@, TagView::Param),
                bad == (|i: int| !field_documented(item.fields@[i], with_tag(comments@, TagView::Param))),
                forall|j: int| 0 <= j < i ==> !#[trigger] bad(j),
        {
            let field = &item.fields[i];
            match &field.name {
                None => {
                    proof {
                        assert(bad(i as int));
                        lemma_first_index_is(n as int, bad, i as int);
                    }
                    return Some(
                        Violation::new(
                            Self::NAME,
                            Self::DESCRIPTION,
                            ViolationError::parse_error("Field name could not be parsed"),
                            field.loc,
                        ),
                    );
                },
                Some(id) => {
                    if !is_documented(&params, id.name.as_str()) {
                        proof {
                            assert(bad(i as int));
                            lemma_first_index_is(n as int, bad, i as int);
                        }
                        return Some(
                            Violation::new(
                                Self::NAME,
                                Self::DESCRIPTION,
                                ViolationError::missing_comment_for(
                                    CommentTag::Param,
                                    id.name.as_str(),
                                ),
                                id.loc,
                            ),
                        );
                    }
                },
            }
        }
        proof {
            lemma_first_index_none(n as int, bad);
        }
        None
    }
}

} // verus!
