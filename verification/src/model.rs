//! The parts of a Solidity syntax tree that the rules read, as plain values.
use vstd::prelude::*;

verus! {

/// A source location: for parsed code, the file number and the start and end byte offsets.
#[derive(Clone, Copy, Debug, PartialEq, Eq, Structural)]
pub enum Span {
    Builtin,
    CommandLine,
    Implicit,
    Codegen,
    File(usize, usize, usize),
}

impl Span {
    /// The start offset of a location in a file.
    pub fn start(&self) -> (r: usize)
        requires
            self is File,
        ensures
            r == self->1,
    {
        match self {
            Span::File(_, s, _) => *s,
            _ => 0,
        }
    }

    /// The end offset of a location in a file.
    pub fn end(&self) -> (r: usize)
        requires
            self is File,
        ensures
            r == self->2,
    {
        match self {
            Span::File(_, _, e) => *e,
            _ => 0,
        }
    }
}

/// A name and where it stands.
#[derive(Clone, Debug, PartialEq, Eq)]
pub struct Ident {
    pub loc: Span,
    pub name: String,
}

/// The kind of a contract definition.
#[derive(Clone, Copy, Debug, PartialEq, Eq, Structural)]
pub enum ContractKind {
    Abstract(Span),
    Contract(Span),
    Interface(Span),
    Library(Span),
}

/// A contract, interface or library (its parts are the children of its parse item).
#[derive(Clone, Debug, PartialEq, Eq)]
pub struct ContractDef {
    pub loc: Span,
    pub ty: ContractKind,
    pub name: Option<Ident>,
}

/// The kind of a function definition.
#[derive(Clone, Copy, Debug, PartialEq, Eq, Structural)]
pub enum FunctionKind {
    Constructor,
    Function,
    Fallback,
    Receive,
    Modifier,
}

/// A visibility keyword.
#[derive(Clone, Copy, Debug, PartialEq, Eq, Structural)]
pub enum VisibilityKind {
    External(Option<Span>),
    Public(Option<Span>),
    Internal(Option<Span>),
    Private(Option<Span>),
}

/// A state mutability keyword.
#[derive(Clone, Copy, Debug, PartialEq, Eq, Structural)]
pub enum MutabilityKind {
    Pure(Span),
    View(Span),
    Constant(Span),
    Payable(Span),
}

/// An attribute of a function definition.
#[derive(Clone, Copy, Debug, PartialEq, Eq, Structural)]
pub enum FunctionAttr {
    Visibility(VisibilityKind),
    Mutability(MutabilityKind),
    Virtual(Span),
    Immutable(Span),
    Override(Span),
    BaseOrModifier(Span),
    Error(Span),
}

/// A function parameter or return variable.
#[derive(Clone, Debug, PartialEq, Eq)]
pub struct Param {
    pub loc: Span,
    pub name: Option<Ident>,
}

/// A function, constructor, modifier, fallback or receive function.
#[derive(Clone, Debug, PartialEq, Eq)]
pub struct FunctionDef {
    pub loc: Span,
    pub ty: FunctionKind,
    pub name: Option<Ident>,
    pub params: Vec<(Span, Option<Param>)>,
    pub attributes: Vec<FunctionAttr>,
    pub returns: Vec<(Span, Option<Param>)>,
}

/// A storage type keyword of a variable.
#[derive(Clone, Copy, Debug, PartialEq, Eq, Structural)]
pub enum StorageKind {
    Temporary(Option<Span>),
    Persistent(Option<Span>),
    Instance(Option<Span>),
}

/// An attribute of a state variable.
#[derive(Clone, Copy, Debug, PartialEq, Eq, Structural)]
pub enum VariableAttr {
    Visibility(VisibilityKind),
    Constant(Span),
    Immutable(Span),
    Override(Span),
    StorageType(StorageKind),
}

/// A state variable.
#[derive(Clone, Debug, PartialEq, Eq)]
pub struct VariableDef {
    pub loc: Span,
    pub attrs: Vec<VariableAttr>,
    pub name: Option<Ident>,
}

/// An event.
#[derive(Clone, Debug, PartialEq, Eq)]
pub struct EventDef {
    pub loc: Span,
    pub name: Option<Ident>,
}

/// A parameter of an error.
#[derive(Clone, Debug, PartialEq, Eq)]
pub struct ErrorParam {
    pub loc: Span,
    pub name: Option<Ident>,
}

/// An error.
#[derive(Clone, Debug, PartialEq, Eq)]
pub struct ErrorDef {
    pub loc: Span,
    pub name: Option<Ident>,
    pub fields: Vec<ErrorParam>,
}

/// A field of a struct.
#[derive(Clone, Debug, PartialEq, Eq)]
pub struct FieldDecl {
    pub loc: Span,
    pub name: Option<Ident>,
}

/// A struct.
#[derive(Clone, Debug, PartialEq, Eq)]
pub struct StructDef {
    pub loc: Span,
    pub name: Option<Ident>,
    pub fields: Vec<FieldDecl>,
}

/// An enum.
#[derive(Clone, Debug, PartialEq, Eq)]
pub struct EnumDef {
    pub loc: Span,
    pub name: Option<Ident>,
    pub values: Vec<Option<Ident>>,
}

/// A user-defined value type.
#[derive(Clone, Debug, PartialEq, Eq)]
pub struct TypeDef {
    pub loc: Span,
    pub name: Ident,
}

} // verus!
