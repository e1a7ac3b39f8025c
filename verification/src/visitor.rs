//! Visiting the definitions of a parsed source, for callers that walk it themselves.
use vstd::prelude::*;

use crate::model::{EnumDef, ErrorDef, EventDef, FunctionDef, StructDef, TypeDef, VariableDef};
use crate::source::{ContractMember, SourceItem, SourceUnit};

verus! {

/// A visitor of the definitions of a parsed source. Each visit method is described by a spec
/// function of the visitor (the visitor and the definition before and after, and the result).
/// Each method but the first has a default that passes its definition over: it returns `Ok`
/// and changes nothing, which its spec function says unless the visitor overrides both; the
/// visitor proves that passing over meets its spec function.
pub trait Visitor: Sized {
    /// The error that visiting may end in.
    type Error;

    /// What visiting a whole source does.
    spec fn source_unit_visited(
        before: Self,
        after: Self,
        unit_before: SourceUnit,
        unit_after: SourceUnit,
        r: Result<(), Self::Error>,
    ) -> bool;

    /// Visits a whole source.
    fn visit_source_unit(&mut self, source_unit: &mut SourceUnit) -> (r: Result<(), Self::Error>)
        ensures
            Self::source_unit_visited(*old(self), *final(self), *old(source_unit), *final(source_unit), r),
    ;

    /// What visiting an enum does.
    open spec fn enum_visited(
        before: Self,
        after: Self,
        def_before: EnumDef,
        def_after: EnumDef,
        r: Result<(), Self::Error>,
    ) -> bool {
        r is Ok && after == before && def_after == def_before
    }

    /// Passing an enum over meets `enum_visited`.
    proof fn lemma_enum_passes_over(visitor: Self, def: EnumDef)
        ensures
            Self::enum_visited(visitor, visitor, def, def, Ok(())),
    ;

    /// Visits an enum.
    fn visit_enum(&mut self, enumerable: &mut EnumDef) -> (r: Result<(), Self::Error>)
        ensures
            Self::enum_visited(*old(self), *final(self), *old(enumerable), *final(enumerable), r),
        default_ensures
            r is Ok,
            *final(self) == *old(self),
            *final(enumerable) == *old(enumerable),
    {
        proof {
            Self::lemma_enum_passes_over(*self, *enumerable);
        }
        Ok(())
    }

    /// What visiting a state variable does.
    open spec fn var_definition_visited(
        before: Self,
        after: Self,
        def_before: VariableDef,
        def_after: VariableDef,
        r: Result<(), Self::Error>,
    ) -> bool {
        r is Ok && after == before && def_after == def_before
    }

    /// Passing a state variable over meets `var_definition_visited`.
    proof fn lemma_var_definition_passes_over(visitor: Self, def: VariableDef)
        ensures
            Self::var_definition_visited(visitor, visitor, def, def, Ok(())),
    ;

    /// Visits a state variable.
    fn visit_var_definition(&mut self, var: &mut VariableDef) -> (r: Result<(), Self::Error>)
        ensures
            Self::var_definition_visited(*old(self), *final(self), *old(var), *final(var), r),
        default_ensures
            r is Ok,
            *final(self) == *old(self),
            *final(var) == *old(var),
    {
        proof {
            Self::lemma_var_definition_passes_over(*self, *var);
        }
        Ok(())
    }

    /// What visiting a function does.
    open spec fn function_visited(
        before: Self,
        after: Self,
        def_before: FunctionDef,
        def_after: FunctionDef,
        r: Result<(), Self::Error>,
    ) -> bool {
        r is Ok && after == before && def_after == def_before
    }

    /// Passing a function over meets `function_visited`.
    proof fn lemma_function_passes_over(visitor: Self, def: FunctionDef)
        ensures
            Self::function_visited(visitor, visitor, def, def, Ok(())),
    ;

    /// Visits a function.
    fn visit_function(&mut self, func: &mut FunctionDef) -> (r: Result<(), Self::Error>)
        ensures
            Self::function_visited(*old(self), *final(self), *old(func), *final(func), r),
        default_ensures
            r is Ok,
            *final(self) == *old(self),
            *final(func) == *old(func),
    {
        proof {
            Self::lemma_function_passes_over(*self, *func);
        }
        Ok(())
    }

    /// What visiting a struct does.
    open spec fn struct_visited(
        before: Self,
        after: Self,
        def_before: StructDef,
        def_after: StructDef,
        r: Result<(), Self::Error>,
    ) -> bool {
        r is Ok && after == before && def_after == def_before
    }

    /// Passing a struct over meets `struct_visited`.
    proof fn lemma_struct_passes_over(visitor: Self, def: StructDef)
        ensures
            Self::struct_visited(visitor, visitor, def, def, Ok(())),
    ;

    /// Visits a struct.
    fn visit_struct(&mut self, structure: &mut StructDef) -> (r: Result<(), Self::Error>)
        ensures
            Self::struct_visited(*old(self), *final(self), *old(structure), *final(structure), r),
        default_ensures
            r is Ok,
            *final(self) == *old(self),
            *final(structure) == *old(structure),
    {
        proof {
            Self::lemma_struct_passes_over(*self, *structure);
        }
        Ok(())
    }

    /// What visiting an event does.
    open spec fn event_visited(
        before: Self,
        after: Self,
        def_before: EventDef,
        def_after: EventDef,
        r: Result<(), Self::Error>,
    ) -> bool {
        r is Ok && after == before && def_after == def_before
    }

    /// Passing an event over meets `event_visited`.
    proof fn lemma_event_passes_over(visitor: Self, def: EventDef)
        ensures
            Self::event_visited(visitor, visitor, def, def, Ok(())),
    ;

    /// Visits an event.
    fn visit_event(&mut self, event: &mut EventDef) -> (r: Result<(), Self::Error>)
        ensures
            Self::event_visited(*old(self), *final(self), *old(event), *final(event), r),
        default_ensures
            r is Ok,
            *final(self) == *old(self),
            *final(event) == *old(event),
    {
        proof {
            Self::lemma_event_passes_over(*self, *event);
        }
        Ok(())
    }

    /// What visiting an error does.
    open spec fn error_visited(
        before: Self,
        after: Self,
        def_before: ErrorDef,
        def_after: ErrorDef,
        r: Result<(), Self::Error>,
    ) -> bool {
        r is Ok && after == before && def_after == def_before
    }

    /// Passing an error over meets `error_visited`.
    proof fn lemma_error_passes_over(visitor: Self, def: ErrorDef)
        ensures
            Self::error_visited(visitor, visitor, def, def, Ok(())),
    ;

    /// Visits an error.
    fn visit_error(&mut self, error: &mut ErrorDef) -> (r: Result<(), Self::Error>)
        ensures
            Self::error_visited(*old(self), *final(self), *old(error), *final(error), r),
        default_ensures
            r is Ok,
            *final(self) == *old(self),
            *final(error) == *old(error),
    {
        proof {
            Self::lemma_error_passes_over(*self, *error);
        }
        Ok(())
    }

    /// What visiting a user-defined value type does.
    open spec fn type_definition_visited(
        before: Self,
        after: Self,
        def_before: TypeDef,
        def_after: TypeDef,
        r: Result<(), Self::Error>,
    ) -> bool {
        r is Ok && after == before && def_after == def_before
    }

    /// Passing a user-defined value type over meets `type_definition_visited`.
    proof fn lemma_type_definition_passes_over(visitor: Self, def: TypeDef)
        ensures
            Self::type_definition_visited(visitor, visitor, def, def, Ok(())),
    ;

    /// Visits a user-defined value type.
    fn visit_type_definition(&mut self, def: &mut TypeDef) -> (r: Result<(), Self::Error>)
        ensures
            Self::type_definition_visited(*old(self), *final(self), *old(def), *final(def), r),
        default_ensures
            r is Ok,
            *final(self) == *old(self),
            *final(def) == *old(def),
    {
        proof {
            Self::lemma_type_definition_passes_over(*self, *def);
        }
        Ok(())
    }
}

/// A part of a parsed source that a visitor can visit.
pub trait Visitable {
    /// Hands this part to the visitor's method for its kind of definition.
    fn visit<V: Visitor>(&mut self, visitor: &mut V) -> Result<(), V::Error>;
}

impl Visitable for SourceUnit {
    /// Hands the whole source to `visit_source_unit`, and returns what it returns.
    fn visit<V: Visitor>(&mut self, visitor: &mut V) -> (r: Result<(), V::Error>)
        ensures
            V::source_unit_visited(*old(visitor), *final(visitor), *old(self), *final(self), r),
    {
        visitor.visit_source_unit(self)
    }
}

impl Visitable for SourceItem {
    /// A definition goes to the visitor's method for its kind, and its result is returned; a
    /// contract, or a part that holds no definition, is passed over: `Ok`, nothing changed.
    fn visit<V: Visitor>(&mut self, visitor: &mut V) -> (r: Result<(), V::Error>)
        ensures
            match *old(self) {
            SourceItem::Function(d) => *final(self) matches SourceItem::Function(e) && V::function_visited(
                *old(visitor),
                *final(visitor),
                d,
                e,
                r,
            ),
            SourceItem::Event(d) => *final(self) matches SourceItem::Event(e) && V::event_visited(
                *old(visitor),
                *final(visitor),
                d,
                e,
                r,
            ),
            SourceItem::Error(d) => *final(self) matches SourceItem::Error(e) && V::error_visited(
                *old(visitor),
                *final(visitor),
                d,
                e,
                r,
            ),
            SourceItem::Struct(d) => *final(self) matches SourceItem::Struct(e) && V::struct_visited(
                *old(visitor),
                *final(visitor),
                d,
                e,
                r,
            ),
            SourceItem::Enum(d) => *final(self) matches SourceItem::Enum(e) && V::enum_visited(
                *old(visitor),
                *final(visitor),
                d,
                e,
                r,
            ),
            SourceItem::Variable(d) => *final(self) matches SourceItem::Variable(e) && V::var_definition_visited(
                *old(visitor),
                *final(visitor),
                d,
                e,
                r,
            ),
            SourceItem::Type(d) => *final(self) matches SourceItem::Type(e) && V::type_definition_visited(
                *old(visitor),
                *final(visitor),
                d,
                e,
                r,
            ),
            _ => r is Ok && *final(self) == *old(self) && *final(visitor) == *old(visitor),
            },
    {
        match self {
            SourceItem::Function(d) => visitor.visit_function(d),
            SourceItem::Event(d) => visitor.visit_event(d),
            SourceItem::Error(d) => visitor.visit_error(d),
            SourceItem::Struct(d) => visitor.visit_struct(d),
            SourceItem::Enum(d) => visitor.visit_enum(d),
            SourceItem::Variable(d) => visitor.visit_var_definition(d),
            SourceItem::Type(d) => visitor.visit_type_definition(d),
            _ => Ok(()),
        }
    }
}

impl Visitable for ContractMember {
    /// A definition goes to the visitor's method for its kind, and its result is returned; a
    /// part that holds no definition is passed over: `Ok`, nothing changed.
    fn visit<V: Visitor>(&mut self, visitor: &mut V) -> (r: Result<(), V::Error>)
        ensures
            match *old(self) {
            ContractMember::Function(d) => *final(self) matches ContractMember::Function(e) && V::function_visited(
                *old(visitor),
                *final(visitor),
                d,
                e,
                r,
            ),
            ContractMember::Event(d) => *final(self) matches ContractMember::Event(e) && V::event_visited(
                *old(visitor),
                *final(visitor),
                d,
                e,
                r,
            ),
            ContractMember::Error(d) => *final(self) matches ContractMember::Error(e) && V::error_visited(
                *old(visitor),
                *final(visitor),
                d,
                e,
                r,
            ),
            ContractMember::Struct(d) => *final(self) matches ContractMember::Struct(e) && V::struct_visited(
                *old(visitor),
                *final(visitor),
                d,
                e,
                r,
            ),
            ContractMember::Enum(d) => *final(self) matches ContractMember::Enum(e) && V::enum_visited(
                *old(visitor),
                *final(visitor),
                d,
                e,
                r,
            ),
            ContractMember::Variable(d) => *final(self) matches ContractMember::Variable(e) && V::var_definition_visited(
                *old(visitor),
                *final(visitor),
                d,
                e,
                r,
            ),
            ContractMember::Type(d) => *final(self) matches ContractMember::Type(e) && V::type_definition_visited(
                *old(visitor),
                *final(visitor),
                d,
                e,
                r,
            ),
            _ => r is Ok && *final(self) == *old(self) && *final(visitor) == *old(visitor),
            },
    {
        match self {
            ContractMember::Function(d) => visitor.visit_function(d),
            ContractMember::Event(d) => visitor.visit_event(d),
            ContractMember::Error(d) => visitor.visit_error(d),
            ContractMember::Struct(d) => visitor.visit_struct(d),
            ContractMember::Enum(d) => visitor.visit_enum(d),
            ContractMember::Variable(d) => visitor.visit_var_definition(d),
            ContractMember::Type(d) => visitor.visit_type_definition(d),
            _ => Ok(()),
        }
    }
}

} // verus!
