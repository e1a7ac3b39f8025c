//! The rules, and what they share: reading names from comments, and the three checks that
//! only look at how many comments carry a tag.
use vstd::prelude::*;

use crate::comments::{split_first_word, with_tag, CommentTag, NatspecView, CommentsRef, TagView};
use crate::model::Span;
use crate::violation::{
    opt_violation_view, violation_view, ErrorView, Violation, ViolationError, ViolationView,
};

pub mod contracts;
pub mod enums;
pub mod errors;
pub mod events;
pub mod functions;
pub mod structs;
pub mod variables;

verus! {

/// Some comment of `params` has `name` as its first word (the word before the first space).
pub open spec fn documents(params: Seq<NatspecView>, name: Seq<char>) -> bool {
    exists|j: int|
        0 <= j < params.len() && (#[trigger] split_first_word(params[j].value) matches Some(
            (w, _),
        ) && w == name)
}

/// The first word of a comment value, or the empty text where it has none.
pub open spec fn first_word_or_empty(value: Seq<char>) -> Seq<char> {
    match split_first_word(value) {
        Some((w, _)) => w,
        None => Seq::empty(),
    }
}

/// Some comment of `params` has `name` as its first word, a comment without one counting as
/// having the empty word.
pub open spec fn documents_or_empty(params: Seq<NatspecView>, name: Seq<char>) -> bool {
    exists|j: int| 0 <= j < params.len() && #[trigger] first_word_or_empty(params[j].value) == name
}

/// Whether some comment of `params` has `name` as its first word.
pub fn is_documented(params: &CommentsRef, name: &str) -> (r: bool)
    ensures
        r == documents(params@, name@),
{
    let n = params.len();
    for i in 0..n
        invariant
            n == params@.len(),
            forall|j: int|
                0 <= j < i ==> !(#[trigger] split_first_word(params@[j].value) matches Some(
                    (w, _),
                ) && w == name@),
    {
        let c = params.get(i);
        assert(c.value@ == params@[i as int].value);
        match c.split_first_word() {
            Some((w, rest)) => {
                if crate::text::text_eq(w, name) {
                    assert(split_first_word(params@[i as int].value) == Some((w@, rest@)));
                    return true;
                }
            },
            None => {},
        }
    }
    false
}

/// Whether some comment of `params` has `name` as its first word, a comment without one
/// counting as having the empty word.
pub fn is_documented_or_empty(params: &CommentsRef, name: &str) -> (r: bool)
    ensures
        r == documents_or_empty(params@, name@),
{
    let n = params.len();
    for i in 0..n
        invariant
            n == params@.len(),
            forall|j: int| 0 <= j < i ==> #[trigger] first_word_or_empty(params@[j].value) != name@,
    {
        let c = params.get(i);
        assert(c.value@ == params@[i as int].value);
        let w = match c.split_first_word() {
            Some((w, _)) => w,
            None => "",
        };
        proof {
            reveal_strlit("");
            assert(w@ == first_word_or_empty(params@[i as int].value));
        }
        if crate::text::text_eq(w, name) {
            return true;
        }
    }
    false
}

/// A comment with tag `tag` is required: the verdict on an item at `loc` with `comments`.
pub open spec fn missing_comment_verdict(
    rule_name: &'static str,
    description: &'static str,
    tag: TagView,
    loc: Span,
    comments: Seq<NatspecView>,
) -> Option<ViolationView> {
    if with_tag(comments, tag).len() == 0 {
        Some(violation_view(rule_name, description, ErrorView::MissingComment(tag), loc))
    } else {
        None
    }
}

/// Comments with tag `tag` are not allowed: the verdict on an item at `loc` with `comments`.
pub open spec fn no_comment_verdict(
    rule_name: &'static str,
    description: &'static str,
    tag: TagView,
    loc: Span,
    comments: Seq<NatspecView>,
) -> Option<ViolationView> {
    if with_tag(comments, tag).len() != 0 {
        Some(violation_view(rule_name, description, ErrorView::IllegalComment(tag), loc))
    } else {
        None
    }
}

/// At most one comment with tag `tag` is allowed: the verdict on an item at `loc` with
/// `comments`.
pub open spec fn too_many_comments_verdict(
    rule_name: &'static str,
    description: &'static str,
    tag: TagView,
    loc: Span,
    comments: Seq<NatspecView>,
) -> Option<ViolationView> {
    if with_tag(comments, tag).len() > 1 {
        Some(violation_view(rule_name, description, ErrorView::TooManyComments(tag), loc))
    } else {
        None
    }
}

/// Reports a missing comment with tag `tag`.
pub fn check_missing_comment(
    rule_name: &'static str,
    description: &'static str,
    tag: CommentTag,
    loc: Span,
    comments: &CommentsRef,
) -> (r: Option<Violation>)
    ensures
        opt_violation_view(r) == missing_comment_verdict(
            rule_name,
            description,
            tag@,
            loc,
            comments@,
        ),
{
    if comments.include_tag(tag.duplicate()).is_empty() {
        Some(Violation::new(rule_name, description, ViolationError::MissingComment(tag), loc))
    } else {
        None
    }
}

/// Reports comments with tag `tag`, which are not allowed.
pub fn check_no_comment(
    rule_name: &'static str,
    description: &'static str,
    tag: CommentTag,
    loc: Span,
    comments: &CommentsRef,
) -> (r: Option<Violation>)
    ensures
        opt_violation_view(r) == no_comment_verdict(rule_name, description, tag@, loc, comments@),
{
    if !comments.include_tag(tag.duplicate()).is_empty() {
        Some(Violation::new(rule_name, description, ViolationError::IllegalComment(tag), loc))
    } else {
        None
    }
}

/// Reports more than one comment with tag `tag`.
pub fn check_too_many_comments(
    rule_name: &'static str,
    description: &'static str,
    tag: CommentTag,
    loc: Span,
    comments: &CommentsRef,
) -> (r: Option<Violation>)
    ensures
        opt_violation_view(r) == too_many_comments_verdict(
            rule_name,
            description,
            tag@,
            loc,
            comments@,
        ),
{
    if comments.include_tag(tag.duplicate()).len() > 1 {
        Some(Violation::new(rule_name, description, ViolationError::TooManyComments(tag), loc))
    } else {
        None
    }
}

} // verus!
