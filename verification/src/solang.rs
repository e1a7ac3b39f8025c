//! Calls into `solang_parser`: parsing a source and parsing doc comments. The syntax tree that
//! the parser returns is converted, one node at a time and one for one, into the plain values
//! of `model` and `source`; nodes that no rule reads become `Other`.
use vstd::prelude::*;

use solang_parser::doccomment::parse_doccomments;
use solang_parser::pt;

use crate::model::{
    ContractDef, ContractKind, EnumDef, ErrorDef, ErrorParam, EventDef, FieldDecl, FunctionAttr,
    FunctionDef, FunctionKind, Ident, MutabilityKind, Param, Span, StorageKind, StructDef,
    TypeDef, VariableAttr, VariableDef, VisibilityKind,
};
use crate::source::{
    CommentKind, ContractMember, RawComment, RawCommentView, SourceItem, SourceUnit,
};

verus! {

#[verifier::external_type_specification]
#[verifier::external_body]
pub struct ExPtLoc(solang_parser::pt::Loc);

#[verifier::external_type_specification]
#[verifier::external_body]
pub struct ExPtIdentifier(solang_parser::pt::Identifier);

#[verifier::external_type_specification]
#[verifier::external_body]
pub struct ExPtContractTy(solang_parser::pt::ContractTy);

#[verifier::external_type_specification]
#[verifier::external_body]
pub struct ExPtFunctionTy(solang_parser::pt::FunctionTy);

#[verifier::external_type_specification]
#[verifier::external_body]
pub struct ExPtVisibility(solang_parser::pt::Visibility);

#[verifier::external_type_specification]
#[verifier::external_body]
pub struct ExPtMutability(solang_parser::pt::Mutability);

#[verifier::external_type_specification]
#[verifier::external_body]
pub struct ExPtStorageType(solang_parser::pt::StorageType);

#[verifier::external_type_specification]
#[verifier::external_body]
pub struct ExPtFunctionAttribute(solang_parser::pt::FunctionAttribute);

#[verifier::external_type_specification]
#[verifier::external_body]
pub struct ExPtVariableAttribute(solang_parser::pt::VariableAttribute);

#[verifier::external_type_specification]
#[verifier::external_body]
pub struct ExPtParameter(solang_parser::pt::Parameter);

#[verifier::external_type_specification]
#[verifier::external_body]
pub struct ExPtFunctionDefinition(solang_parser::pt::FunctionDefinition);

#[verifier::external_type_specification]
#[verifier::external_body]
pub struct ExPtVariableDefinition(solang_parser::pt::VariableDefinition);

#[verifier::external_type_specification]
#[verifier::external_body]
pub struct ExPtEventDefinition(solang_parser::pt::EventDefinition);

#[verifier::external_type_specification]
#[verifier::external_body]
pub struct ExPtErrorParameter(solang_parser::pt::ErrorParameter);

#[verifier::external_type_specification]
#[verifier::external_body]
pub struct ExPtErrorDefinition(solang_parser::pt::ErrorDefinition);

#[verifier::external_type_specification]
#[verifier::external_body]
pub struct ExPtVariableDeclaration(solang_parser::pt::VariableDeclaration);

#[verifier::external_type_specification]
#[verifier::external_body]
pub struct ExPtStructDefinition(solang_parser::pt::StructDefinition);

#[verifier::external_type_specification]
#[verifier::external_body]
pub struct ExPtEnumDefinition(solang_parser::pt::EnumDefinition);

#[verifier::external_type_specification]
#[verifier::external_body]
pub struct ExPtTypeDefinition(solang_parser::pt::TypeDefinition);

#[verifier::external_type_specification]
#[verifier::external_body]
pub struct ExPtContractDefinition(solang_parser::pt::ContractDefinition);

#[verifier::external_type_specification]
#[verifier::external_body]
pub struct ExPtContractPart(solang_parser::pt::ContractPart);

#[verifier::external_type_specification]
#[verifier::external_body]
pub struct ExPtSourceUnitPart(solang_parser::pt::SourceUnitPart);

#[verifier::external_type_specification]
#[verifier::external_body]
pub struct ExPtComment(solang_parser::pt::Comment);

/// Converts a `pt::Loc` into a `Span`, variant for variant.
#[verifier::external_body]
fn convert_loc(l: &pt::Loc) -> Span {
    match l {
        pt::Loc::Builtin => Span::Builtin,
        pt::Loc::CommandLine => Span::CommandLine,
        pt::Loc::Implicit => Span::Implicit,
        pt::Loc::Codegen => Span::Codegen,
        pt::Loc::File(f, s, e) => Span::File(*f, *s, *e),
    }
}

/// Converts a `Span` back into a `pt::Loc`, variant for variant.
#[verifier::external_body]
fn span_to_pt(l: &Span) -> pt::Loc {
    match l {
        Span::Builtin => pt::Loc::Builtin,
        Span::CommandLine => pt::Loc::CommandLine,
        Span::Implicit => pt::Loc::Implicit,
        Span::Codegen => pt::Loc::Codegen,
        Span::File(f, s, e) => pt::Loc::File(*f, *s, *e),
    }
}

/// Converts a `pt::Identifier` (its location and name).
#[verifier::external_body]
fn convert_ident(i: &pt::Identifier) -> Ident {
    Ident { loc: convert_loc(&i.loc), name: i.name.clone() }
}

/// Converts a `pt::ContractTy`, variant for variant.
#[verifier::external_body]
fn convert_contract_ty(t: &pt::ContractTy) -> ContractKind {
    match t {
        pt::ContractTy::Abstract(l) => ContractKind::Abstract(convert_loc(l)),
        pt::ContractTy::Contract(l) => ContractKind::Contract(convert_loc(l)),
        pt::ContractTy::Interface(l) => ContractKind::Interface(convert_loc(l)),
        pt::ContractTy::Library(l) => ContractKind::Library(convert_loc(l)),
    }
}

/// Converts a `pt::FunctionTy`, variant for variant.
#[verifier::external_body]
fn convert_function_ty(t: &pt::FunctionTy) -> FunctionKind {
    match t {
        pt::FunctionTy::Constructor => FunctionKind::Constructor,
        pt::FunctionTy::Function => FunctionKind::Function,
        pt::FunctionTy::Fallback => FunctionKind::Fallback,
        pt::FunctionTy::Receive => FunctionKind::Receive,
        pt::FunctionTy::Modifier => FunctionKind::Modifier,
    }
}

/// Converts a `pt::Visibility`, variant for variant.
#[verifier::external_body]
fn convert_visibility(v: &pt::Visibility) -> VisibilityKind {
    match v {
        pt::Visibility::External(l) => VisibilityKind::External(l.as_ref().map(convert_loc)),
        pt::Visibility::Public(l) => VisibilityKind::Public(l.as_ref().map(convert_loc)),
        pt::Visibility::Internal(l) => VisibilityKind::Internal(l.as_ref().map(convert_loc)),
        pt::Visibility::Private(l) => VisibilityKind::Private(l.as_ref().map(convert_loc)),
    }
}

/// Converts a `pt::Mutability`, variant for variant.
#[verifier::external_body]
fn convert_mutability(m: &pt::Mutability) -> MutabilityKind {
    match m {
        pt::Mutability::Pure(l) => MutabilityKind::Pure(convert_loc(l)),
        pt::Mutability::View(l) => MutabilityKind::View(convert_loc(l)),
        pt::Mutability::Constant(l) => MutabilityKind::Constant(convert_loc(l)),
        pt::Mutability::Payable(l) => MutabilityKind::Payable(convert_loc(l)),
    }
}

/// Converts a `pt::StorageType`, variant for variant.
#[verifier::external_body]
fn convert_storage(s: &pt::StorageType) -> StorageKind {
    match s {
        pt::StorageType::Temporary(l) => StorageKind::Temporary(l.as_ref().map(convert_loc)),
        pt::StorageType::Persistent(l) => StorageKind::Persistent(l.as_ref().map(convert_loc)),
        pt::StorageType::Instance(l) => StorageKind::Instance(l.as_ref().map(convert_loc)),
    }
}

/// Converts a `pt::FunctionAttribute` (an override or base by its location alone).
#[verifier::external_body]
fn convert_function_attr(a: &pt::FunctionAttribute) -> FunctionAttr {
    match a {
        pt::FunctionAttribute::Visibility(v) => FunctionAttr::Visibility(convert_visibility(v)),
        pt::FunctionAttribute::Mutability(m) => FunctionAttr::Mutability(convert_mutability(m)),
        pt::FunctionAttribute::Virtual(l) => FunctionAttr::Virtual(convert_loc(l)),
        pt::FunctionAttribute::Immutable(l) => FunctionAttr::Immutable(convert_loc(l)),
        pt::FunctionAttribute::Override(l, _) => FunctionAttr::Override(convert_loc(l)),
        pt::FunctionAttribute::BaseOrModifier(l, _) => FunctionAttr::BaseOrModifier(convert_loc(l)),
        pt::FunctionAttribute::Error(l) => FunctionAttr::Error(convert_loc(l)),
    }
}

/// Converts a `pt::VariableAttribute` (an override by its location alone).
#[verifier::external_body]
fn convert_variable_attr(a: &pt::VariableAttribute) -> VariableAttr {
    match a {
        pt::VariableAttribute::Visibility(v) => VariableAttr::Visibility(convert_visibility(v)),
        pt::VariableAttribute::Constant(l) => VariableAttr::Constant(convert_loc(l)),
        pt::VariableAttribute::Immutable(l) => VariableAttr::Immutable(convert_loc(l)),
        pt::VariableAttribute::Override(l, _) => VariableAttr::Override(convert_loc(l)),
        pt::VariableAttribute::StorageType(s) => VariableAttr::StorageType(convert_storage(s)),
    }
}

/// Converts a `pt::Parameter` (its location and name).
#[verifier::external_body]
fn convert_param(p: &pt::Parameter) -> Param {
    Param { loc: convert_loc(&p.loc), name: p.name.as_ref().map(convert_ident) }
}

/// Converts an entry of a `pt::ParameterList`.
#[verifier::external_body]
fn convert_param_entry(entry: &(pt::Loc, Option<pt::Parameter>)) -> (Span, Option<Param>) {
    (convert_loc(&entry.0), entry.1.as_ref().map(convert_param))
}

/// Converts a `pt::FunctionDefinition` (without its body).
#[verifier::external_body]
fn convert_function(f: &pt::FunctionDefinition) -> FunctionDef {
    FunctionDef {
        loc: convert_loc(&f.loc),
        ty: convert_function_ty(&f.ty),
        name: f.name.as_ref().map(convert_ident),
        params: f.params.iter().map(convert_param_entry).collect(),
        attributes: f.attributes.iter().map(convert_function_attr).collect(),
        returns: f.returns.iter().map(convert_param_entry).collect(),
    }
}

/// Converts a `pt::VariableDefinition` (without its type and initializer).
#[verifier::external_body]
fn convert_variable(v: &pt::VariableDefinition) -> VariableDef {
    VariableDef {
        loc: convert_loc(&v.loc),
        attrs: v.attrs.iter().map(convert_variable_attr).collect(),
        name: v.name.as_ref().map(convert_ident),
    }
}

/// Converts a `pt::EventDefinition` (its location and name).
#[verifier::external_body]
fn convert_event(e: &pt::EventDefinition) -> EventDef {
    EventDef { loc: convert_loc(&e.loc), name: e.name.as_ref().map(convert_ident) }
}

/// Converts a `pt::ErrorParameter` (its location and name).
#[verifier::external_body]
fn convert_error_param(p: &pt::ErrorParameter) -> ErrorParam {
    ErrorParam { loc: convert_loc(&p.loc), name: p.name.as_ref().map(convert_ident) }
}

/// Converts a `pt::ErrorDefinition` (its location, name and parameters).
#[verifier::external_body]
fn convert_error(e: &pt::ErrorDefinition) -> ErrorDef {
    ErrorDef {
        loc: convert_loc(&e.loc),
        name: e.name.as_ref().map(convert_ident),
        fields: e.fields.iter().map(convert_error_param).collect(),
    }
}

/// Converts a `pt::VariableDeclaration`, a field of a struct (its location and name).
#[verifier::external_body]
fn convert_field(f: &pt::VariableDeclaration) -> FieldDecl {
    FieldDecl { loc: convert_loc(&f.loc), name: f.name.as_ref().map(convert_ident) }
}

/// Converts a `pt::StructDefinition` (its location, name and fields).
#[verifier::external_body]
fn convert_struct(s: &pt::StructDefinition) -> StructDef {
    StructDef {
        loc: convert_loc(&s.loc),
        name: s.name.as_ref().map(convert_ident),
        fields: s.fields.iter().map(convert_field).collect(),
    }
}

/// Converts a `pt::EnumDefinition` (its location, name and variants).
#[verifier::external_body]
fn convert_enum(e: &pt::EnumDefinition) -> EnumDef {
    EnumDef {
        loc: convert_loc(&e.loc),
        name: e.name.as_ref().map(convert_ident),
        values: e.values.iter().map(|v| v.as_ref().map(convert_ident)).collect(),
    }
}

/// Converts a `pt::TypeDefinition` (its location and name).
#[verifier::external_body]
fn convert_type(t: &pt::TypeDefinition) -> TypeDef {
    TypeDef { loc: convert_loc(&t.loc), name: convert_ident(&t.name) }
}

/// Converts a `pt::ContractDefinition`, without its parts.
#[verifier::external_body]
fn convert_contract(c: &pt::ContractDefinition) -> ContractDef {
    ContractDef {
        loc: convert_loc(&c.loc),
        ty: convert_contract_ty(&c.ty),
        name: c.name.as_ref().map(convert_ident),
    }
}

/// Converts a `pt::ContractPart`; parts that no rule documents become `Other`.
#[verifier::external_body]
fn convert_contract_part(p: &pt::ContractPart) -> ContractMember {
    match p {
        pt::ContractPart::FunctionDefinition(f) => ContractMember::Function(convert_function(f)),
        pt::ContractPart::EventDefinition(e) => ContractMember::Event(convert_event(e)),
        pt::ContractPart::ErrorDefinition(e) => ContractMember::Error(convert_error(e)),
        pt::ContractPart::StructDefinition(s) => ContractMember::Struct(convert_struct(s)),
        pt::ContractPart::EnumDefinition(e) => ContractMember::Enum(convert_enum(e)),
        pt::ContractPart::VariableDefinition(v) => ContractMember::Variable(convert_variable(v)),
        pt::ContractPart::TypeDefinition(t) => ContractMember::Type(convert_type(t)),
        _ => ContractMember::Other,
    }
}

/// Converts a `pt::SourceUnitPart`; parts that no rule documents become `Other`.
#[verifier::external_body]
fn convert_source_unit_part(p: &pt::SourceUnitPart) -> SourceItem {
    match p {
        pt::SourceUnitPart::ContractDefinition(c) => SourceItem::Contract(
            convert_contract(c),
            c.parts.iter().map(convert_contract_part).collect(),
        ),
        pt::SourceUnitPart::FunctionDefinition(f) => SourceItem::Function(convert_function(f)),
        pt::SourceUnitPart::EventDefinition(e) => SourceItem::Event(convert_event(e)),
        pt::SourceUnitPart::ErrorDefinition(e) => SourceItem::Error(convert_error(e)),
        pt::SourceUnitPart::StructDefinition(s) => SourceItem::Struct(convert_struct(s)),
        pt::SourceUnitPart::EnumDefinition(e) => SourceItem::Enum(convert_enum(e)),
        pt::SourceUnitPart::VariableDefinition(v) => SourceItem::Variable(convert_variable(v)),
        pt::SourceUnitPart::TypeDefinition(t) => SourceItem::Type(convert_type(t)),
        _ => SourceItem::Other,
    }
}

/// Converts a `pt::Comment` (its kind, location and text).
#[verifier::external_body]
fn convert_comment(c: &pt::Comment) -> RawComment {
    let (kind, l, text) = match c {
        pt::Comment::Line(l, t) => (CommentKind::Line, l, t),
        pt::Comment::Block(l, t) => (CommentKind::Block, l, t),
        pt::Comment::DocLine(l, t) => (CommentKind::DocLine, l, t),
        pt::Comment::DocBlock(l, t) => (CommentKind::DocBlock, l, t),
    };
    RawComment { kind, loc: convert_loc(l), text: text.clone() }
}

/// Converts a `RawComment` back into a `pt::Comment`.
#[verifier::external_body]
fn comment_to_pt(c: &RawComment) -> pt::Comment {
    let (l, t) = (span_to_pt(&c.loc), c.text.clone());
    match c.kind {
        CommentKind::Line => pt::Comment::Line(l, t),
        CommentKind::Block => pt::Comment::Block(l, t),
        CommentKind::DocLine => pt::Comment::DocLine(l, t),
        CommentKind::DocBlock => pt::Comment::DocBlock(l, t),
    }
}

/// The views of raw comments.
pub open spec fn raw_views(cs: Seq<RawComment>) -> Seq<RawCommentView> {
    cs.map_values(|c: RawComment| c@)
}

/// What `solang_parser::parse` makes of a source (with file number 0): its parts and
/// comments, or the text of the diagnostics that reject it.
pub uninterp spec fn solidity_parse(content: Seq<char>) -> Result<(SourceUnit, Seq<RawCommentView>), Seq<char>>;

/// Parses a Solidity source with `solang_parser::parse` (file number 0). The claim is only
/// that the result is a function of the text (named `solidity_parse`); the diagnostics of a
/// rejected source come back as their debug text.
#[verifier::external_body]
pub fn parse_solidity(content: &str) -> (r: Result<(SourceUnit, Vec<RawComment>), String>)
    ensures
        match r {
            Ok((unit, comments)) => solidity_parse(content@) == Ok::<_, Seq<char>>((unit, raw_views(comments@))),
            Err(m) => solidity_parse(content@) == Err::<(SourceUnit, Seq<RawCommentView>), _>(m@),
        },
{
    match solang_parser::parse(content, 0) {
        Ok((unit, comments)) => Ok((
            SourceUnit(unit.0.iter().map(convert_source_unit_part).collect()),
            comments.iter().map(convert_comment).collect(),
        )),
        Err(diagnostics) => Err(format!("{:?}", diagnostics)),
    }
}

/// The tags and values that `solang_parser::doccomment::parse_doccomments` finds in the doc
/// comments among `comments` that overlap the range from `start` to `end`: one list per doc
/// comment, in order.
pub uninterp spec fn doc_tags(comments: Seq<RawCommentView>, start: usize, end: usize) -> Seq<Seq<(Seq<char>, Seq<char>)>>;

/// The tag and value of each tag of a doc comment.
pub open spec fn tag_pairs(tags: Seq<(String, String)>) -> Seq<(Seq<char>, Seq<char>)> {
    tags.map_values(|p: (String, String)| (p.0@, p.1@))
}

/// Runs `solang_parser::doccomment::parse_doccomments` on `comments` from `start` to `end`
/// and lists, for each doc comment it returns, the tag and value of each of its tags (taken
/// by `DocComment::into_comments`). The claim is only that the result is a function of the
/// arguments (named `doc_tags`). `requires` excludes what makes the outside function panic:
/// a doc comment at no file location (it asks every doc comment for its start and end), and,
/// among the doc comments that overlap the range, one that is not cut where it expects (it
/// slices off `///`, or `/**` and `*/`, and each line's tag at the byte after the tag's last
/// character) or one whose offsets overflow.
#[verifier::external_body]
pub fn parse_doc_tags(comments: &Vec<RawComment>, start: usize, end: usize) -> (r: Vec<Vec<(String, String)>>)
    requires
        crate::source::docs_located(raw_views(comments@)),
        crate::source::range_readable(raw_views(comments@), start, end),
    ensures
        r@.map_values(|b: Vec<(String, String)>| tag_pairs(b@)) == doc_tags(raw_views(comments@), start, end),
{
    let raw: Vec<pt::Comment> = comments.iter().map(comment_to_pt).collect();
    parse_doccomments(&raw, start, end)
        .into_iter()
        .map(|d| d.into_comments().into_iter().map(|t| (t.tag, t.value)).collect())
        .collect()
}

} // verus!
