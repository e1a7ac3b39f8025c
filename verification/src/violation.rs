//! What a rule reports when an item's comments break it.
use vstd::prelude::*;

use crate::comments::{CommentTag, TagView};
use crate::model::Span;

verus! {

/// What is wrong with an item's comments.
#[derive(Clone, Debug, PartialEq, Eq)]
pub enum ViolationError {
    /// A comment with this tag is missing.
    MissingComment(CommentTag),
    /// No comment with this tag documents the named parameter, field or variant.
    MissingCommentFor(CommentTag, String),
    /// There are more comments with this tag than allowed.
    TooManyComments(CommentTag),
    /// Comments with this tag are not allowed here.
    IllegalComment(CommentTag),
    /// An `@inheritdoc` comment stands beside other comments.
    OnlyInheritdoc,
    /// A part of the item could not be read.
    ParseError(String),
}

/// A violation error as a mathematical value.
pub enum ErrorView {
    MissingComment(TagView),
    MissingCommentFor(TagView, Seq<char>),
    TooManyComments(TagView),
    IllegalComment(TagView),
    OnlyInheritdoc,
    ParseError(Seq<char>),
}

impl View for ViolationError {
    type V = ErrorView;

    open spec fn view(&self) -> ErrorView {
        match self {
            ViolationError::MissingComment(t) => ErrorView::MissingComment(t@),
            ViolationError::MissingCommentFor(t, n) => ErrorView::MissingCommentFor(t@, n@),
            ViolationError::TooManyComments(t) => ErrorView::TooManyComments(t@),
            ViolationError::IllegalComment(t) => ErrorView::IllegalComment(t@),
            ViolationError::OnlyInheritdoc => ErrorView::OnlyInheritdoc,
            ViolationError::ParseError(m) => ErrorView::ParseError(m@),
        }
    }
}

impl ViolationError {
    /// The comment with tag `tag` that documents `name` is missing.
    pub fn missing_comment_for(tag: CommentTag, name: &str) -> (r: ViolationError)
        ensures
            r@ == ErrorView::MissingCommentFor(tag@, name@),
    {
        ViolationError::MissingCommentFor(tag, name.to_owned())
    }

    /// A part of the item could not be read, as `message` says.
    pub fn parse_error(message: &str) -> (r: ViolationError)
        ensures
            r@ == ErrorView::ParseError(message@),
    {
        ViolationError::ParseError(message.to_owned())
    }
}

/// A broken rule: its name and description, what is wrong, and where.
#[derive(Clone, Debug, PartialEq, Eq)]
pub struct Violation {
    pub rule_name: &'static str,
    pub description: &'static str,
    pub error: ViolationError,
    pub loc: Span,
}

/// A violation as a mathematical value.
pub struct ViolationView {
    pub rule_name: Seq<char>,
    pub description: Seq<char>,
    pub error: ErrorView,
    pub loc: Span,
}

impl View for Violation {
    type V = ViolationView;

    open spec fn view(&self) -> ViolationView {
        ViolationView {
            rule_name: self.rule_name@,
            description: self.description@,
            error: self.error@,
            loc: self.loc,
        }
    }
}

/// The violation of rule `rule_name` (described by `description`) with `error` at `loc`.
pub open spec fn violation_view(
    rule_name: &'static str,
    description: &'static str,
    error: ErrorView,
    loc: Span,
) -> ViolationView {
    ViolationView { rule_name: rule_name@, description: description@, error, loc }
}

/// The view of an optional violation.
pub open spec fn opt_violation_view(v: Option<Violation>) -> Option<ViolationView> {
    match v {
        Some(v) => Some(v@),
        None => None,
    }
}

impl Violation {
    pub fn new(
        rule_name: &'static str,
        description: &'static str,
        error: ViolationError,
        loc: Span,
    ) -> (r: Violation)
        ensures
            r@ == violation_view(rule_name, description, error@, loc),
    {
        Violation { rule_name, description, error, loc }
    }
}

} // verus!
