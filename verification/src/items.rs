//! Documented items: a definition, its natspec comments, and the items nested in it.
use vstd::prelude::*;

use crate::comments::Comments;
use crate::model::{
    ContractDef, EnumDef, ErrorDef, EventDef, FunctionDef,
    Span, StructDef, TypeDef, VariableDef,
};

verus! {

/// The definition that an item documents.
#[derive(Clone, Debug, PartialEq, Eq)]
pub enum ParseSource {
    Contract(ContractDef),
    Function(FunctionDef),
    Variable(VariableDef),
    Event(EventDef),
    Error(ErrorDef),
    Struct(StructDef),
    Enum(EnumDef),
    Type(TypeDef),
}

/// The kinds of definitions that rules target.
#[derive(Clone, Copy, Debug, PartialEq, Eq, Structural)]
pub enum ItemKind {
    Contract,
    Function,
    Variable,
    Event,
    Error,
    Struct,
    Enum,
    Type,
}

impl ParseSource {
    /// The kind of definition.
    pub open spec fn spec_kind(&self) -> ItemKind {
        match self {
            ParseSource::Contract(_) => ItemKind::Contract,
            ParseSource::Function(_) => ItemKind::Function,
            ParseSource::Variable(_) => ItemKind::Variable,
            ParseSource::Event(_) => ItemKind::Event,
            ParseSource::Error(_) => ItemKind::Error,
            ParseSource::Struct(_) => ItemKind::Struct,
            ParseSource::Enum(_) => ItemKind::Enum,
            ParseSource::Type(_) => ItemKind::Type,
        }
    }

    /// The kind of definition.
    #[verifier::when_used_as_spec(spec_kind)]
    pub fn kind(&self) -> (r: ItemKind)
        ensures
            r == self.spec_kind(),
    {
        match self {
            ParseSource::Contract(_) => ItemKind::Contract,
            ParseSource::Function(_) => ItemKind::Function,
            ParseSource::Variable(_) => ItemKind::Variable,
            ParseSource::Event(_) => ItemKind::Event,
            ParseSource::Error(_) => ItemKind::Error,
            ParseSource::Struct(_) => ItemKind::Struct,
            ParseSource::Enum(_) => ItemKind::Enum,
            ParseSource::Type(_) => ItemKind::Type,
        }
    }

    /// Where the definition stands.
    pub open spec fn spec_loc(&self) -> Span {
        match self {
            ParseSource::Contract(d) => d.loc,
            ParseSource::Function(d) => d.loc,
            ParseSource::Variable(d) => d.loc,
            ParseSource::Event(d) => d.loc,
            ParseSource::Error(d) => d.loc,
            ParseSource::Struct(d) => d.loc,
            ParseSource::Enum(d) => d.loc,
            ParseSource::Type(d) => d.loc,
        }
    }

    /// Where the definition stands.
    #[verifier::when_used_as_spec(spec_loc)]
    pub fn loc(&self) -> (r: Span)
        ensures
            r == self.spec_loc(),
    {
        match self {
            ParseSource::Contract(d) => d.loc,
            ParseSource::Function(d) => d.loc,
            ParseSource::Variable(d) => d.loc,
            ParseSource::Event(d) => d.loc,
            ParseSource::Error(d) => d.loc,
            ParseSource::Struct(d) => d.loc,
            ParseSource::Enum(d) => d.loc,
            ParseSource::Type(d) => d.loc,
        }
    }
}

/// A documented definition, with the items nested in it (the parts of a contract).
#[derive(Debug, PartialEq, Eq)]
pub struct ParseItem {
    pub source: ParseSource,
    pub comments: Comments,
    pub children: Vec<ParseItem>,
}

/// The kind of contract that an optional parent item is, if it is a contract.
pub open spec fn parent_contract(parent: Option<&ParseItem>) -> Option<ContractDef> {
    match parent {
        Some(p) => match p.source {
            ParseSource::Contract(c) => Some(c),
            _ => None,
        },
        None => None,
    }
}

impl ParseItem {
    /// An item without comments or children.
    pub fn new(source: ParseSource) -> (r: ParseItem)
        ensures
            r.source == source,
            r.comments.0@.len() == 0,
            r.children@.len() == 0,
    {
        ParseItem { source, comments: Comments(Vec::new()), children: Vec::new() }
    }

    /// The contract that the item documents, if it documents one.
    pub fn as_contract(&self) -> (r: Option<&ContractDef>)
        ensures
            match self.source {
                ParseSource::Contract(c) => r == Some(&c),
                _ => r is None,
            },
    {
        match &self.source {
            ParseSource::Contract(c) => Some(c),
            _ => None,
        }
    }

    /// The function that the item documents, if it documents one.
    pub fn as_function(&self) -> (r: Option<&FunctionDef>)
        ensures
            match self.source {
                ParseSource::Function(f) => r == Some(&f),
                _ => r is None,
            },
    {
        match &self.source {
            ParseSource::Function(f) => Some(f),
            _ => None,
        }
    }

    /// The variable that the item documents, if it documents one.
    pub fn as_variable(&self) -> (r: Option<&VariableDef>)
        ensures
            match self.source {
                ParseSource::Variable(v) => r == Some(&v),
                _ => r is None,
            },
    {
        match &self.source {
            ParseSource::Variable(v) => Some(v),
            _ => None,
        }
    }

    /// The event that the item documents, if it documents one.
    pub fn as_event(&self) -> (r: Option<&EventDef>)
        ensures
            match self.source {
                ParseSource::Event(e) => r == Some(&e),
                _ => r is None,
            },
    {
        match &self.source {
            ParseSource::Event(e) => Some(e),
            _ => None,
        }
    }

    /// The error that the item documents, if it documents one.
    pub fn as_error(&self) -> (r: Option<&ErrorDef>)
        ensures
            match self.source {
                ParseSource::Error(e) => r == Some(&e),
                _ => r is None,
            },
    {
        match &self.source {
            ParseSource::Error(e) => Some(e),
            _ => None,
        }
    }

    /// The struct that the item documents, if it documents one.
    pub fn as_struct(&self) -> (r: Option<&StructDef>)
        ensures
            match self.source {
                ParseSource::Struct(s) => r == Some(&s),
                _ => r is None,
            },
    {
        match &self.source {
            ParseSource::Struct(s) => Some(s),
            _ => None,
        }
    }

    /// The enum that the item documents, if it documents one.
    pub fn as_enum(&self) -> (r: Option<&EnumDef>)
        ensures
            match self.source {
                ParseSource::Enum(e) => r == Some(&e),
                _ => r is None,
            },
    {
        match &self.source {
            ParseSource::Enum(e) => Some(e),
            _ => None,
        }
    }

    /// The user-defined value type that the item documents, if it documents one.
    pub fn as_type(&self) -> (r: Option<&TypeDef>)
        ensures
            match self.source {
                ParseSource::Type(t) => r == Some(&t),
                _ => r is None,
            },
    {
        match &self.source {
            ParseSource::Type(t) => Some(t),
            _ => None,
        }
    }
}

} // verus!
