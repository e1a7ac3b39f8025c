//! Sets of rules chosen at run time, and checking an item against them.
use vstd::prelude::*;

use crate::comments::{NatspecView, CommentsRef};
use crate::items::{parent_contract, ItemKind, ParseItem, ParseSource};
use crate::model::ContractDef;
use crate::rules::{contracts, enums, errors, events, functions, structs, variables};
use crate::violation::{opt_violation_view, Violation, ViolationView};

verus! {

/// One of the rules, named by the kind of definition it checks and its own name.
#[derive(Clone, Copy, Debug, PartialEq, Eq, Structural)]
pub enum RuleKind {
    ContractMissingTitle,
    ContractNoInheritdoc,
    ContractNoParam,
    ContractTooManyNotice,
    ContractTooManyTitle,
    EnumMissingTitle,
    EnumMissingVariant,
    EnumTooManyTitle,
    ErrorMissingNotice,
    ErrorMissingParam,
    ErrorNoAuthor,
    ErrorNoReturn,
    ErrorNoTitle,
    EventTooManyNotice,
    FunctionMissingInheritdoc,
    FunctionMissingNotice,
    FunctionMissingParams,
    FunctionMissingReturn,
    FunctionOnlyInheritdoc,
    FunctionTooManyNotice,
    StructMissingParams,
    StructMissingTitle,
    VariableMissingInheritdoc,
    VariableMissingNotice,
    VariableNoAuthor,
    VariableNoTitle,
    VariableTooManyInheritdoc,
    VariableTooManyNotice,
}

impl RuleKind {
    /// The kind of definition that the rule checks.
    pub open spec fn spec_target(&self) -> ItemKind {
        match self {
            RuleKind::ContractMissingTitle => ItemKind::Contract,
            RuleKind::ContractNoInheritdoc => ItemKind::Contract,
            RuleKind::ContractNoParam => ItemKind::Contract,
            RuleKind::ContractTooManyNotice => ItemKind::Contract,
            RuleKind::ContractTooManyTitle => ItemKind::Contract,
            RuleKind::EnumMissingTitle => ItemKind::Enum,
            RuleKind::EnumMissingVariant => ItemKind::Enum,
            RuleKind::EnumTooManyTitle => ItemKind::Enum,
            RuleKind::ErrorMissingNotice => ItemKind::Error,
            RuleKind::ErrorMissingParam => ItemKind::Error,
            RuleKind::ErrorNoAuthor => ItemKind::Error,
            RuleKind::ErrorNoReturn => ItemKind::Error,
            RuleKind::ErrorNoTitle => ItemKind::Error,
            RuleKind::EventTooManyNotice => ItemKind::Event,
            RuleKind::FunctionMissingInheritdoc => ItemKind::Function,
            RuleKind::FunctionMissingNotice => ItemKind::Function,
            RuleKind::FunctionMissingParams => ItemKind::Function,
            RuleKind::FunctionMissingReturn => ItemKind::Function,
            RuleKind::FunctionOnlyInheritdoc => ItemKind::Function,
            RuleKind::FunctionTooManyNotice => ItemKind::Function,
            RuleKind::StructMissingParams => ItemKind::Struct,
            RuleKind::StructMissingTitle => ItemKind::Struct,
            RuleKind::VariableMissingInheritdoc => ItemKind::Variable,
            RuleKind::VariableMissingNotice => ItemKind::Variable,
            RuleKind::VariableNoAuthor => ItemKind::Variable,
            RuleKind::VariableNoTitle => ItemKind::Variable,
            RuleKind::VariableTooManyInheritdoc => ItemKind::Variable,
            RuleKind::VariableTooManyNotice => ItemKind::Variable,
        }
    }

    /// The kind of definition that the rule checks.
    #[verifier::when_used_as_spec(spec_target)]
    pub fn target(&self) -> (r: ItemKind)
        ensures
            r == self.spec_target(),
    {
        match self {
            RuleKind::ContractMissingTitle => ItemKind::Contract,
            RuleKind::ContractNoInheritdoc => ItemKind::Contract,
            RuleKind::ContractNoParam => ItemKind::Contract,
            RuleKind::ContractTooManyNotice => ItemKind::Contract,
            RuleKind::ContractTooManyTitle => ItemKind::Contract,
            RuleKind::EnumMissingTitle => ItemKind::Enum,
            RuleKind::EnumMissingVariant => ItemKind::Enum,
            RuleKind::EnumTooManyTitle => ItemKind::Enum,
            RuleKind::ErrorMissingNotice => ItemKind::Error,
            RuleKind::ErrorMissingParam => ItemKind::Error,
            RuleKind::ErrorNoAuthor => ItemKind::Error,
            RuleKind::ErrorNoReturn => ItemKind::Error,
            RuleKind::ErrorNoTitle => ItemKind::Error,
            RuleKind::EventTooManyNotice => ItemKind::Event,
            RuleKind::FunctionMissingInheritdoc => ItemKind::Function,
            RuleKind::FunctionMissingNotice => ItemKind::Function,
            RuleKind::FunctionMissingParams => ItemKind::Function,
            RuleKind::FunctionMissingReturn => ItemKind::Function,
            RuleKind::FunctionOnlyInheritdoc => ItemKind::Function,
            RuleKind::FunctionTooManyNotice => ItemKind::Function,
            RuleKind::StructMissingParams => ItemKind::Struct,
            RuleKind::StructMissingTitle => ItemKind::Struct,
            RuleKind::VariableMissingInheritdoc => ItemKind::Variable,
            RuleKind::VariableMissingNotice => ItemKind::Variable,
            RuleKind::VariableNoAuthor => ItemKind::Variable,
            RuleKind::VariableNoTitle => ItemKind::Variable,
            RuleKind::VariableTooManyInheritdoc => ItemKind::Variable,
            RuleKind::VariableTooManyNotice => ItemKind::Variable,
        }
    }

    /// The name of the rule.
    pub open spec fn spec_name(&self) -> &'static str {
        match self {
            RuleKind::ContractMissingTitle => contracts::missing_title::MissingTitle::NAME,
            RuleKind::ContractNoInheritdoc => contracts::no_inheritdoc::NoInheritdoc::NAME,
            RuleKind::ContractNoParam => contracts::no_param::NoParam::NAME,
            RuleKind::ContractTooManyNotice => contracts::too_many_notice::TooManyNotice::NAME,
            RuleKind::ContractTooManyTitle => contracts::too_many_title::TooManyTitle::NAME,
            RuleKind::EnumMissingTitle => enums::missing_title::MissingTitle::NAME,
            RuleKind::EnumMissingVariant => enums::missing_variant::MissingVariant::NAME,
            RuleKind::EnumTooManyTitle => enums::too_many_title::TooManyTitle::NAME,
            RuleKind::ErrorMissingNotice => errors::missing_notice::MissingNotice::NAME,
            RuleKind::ErrorMissingParam => errors::missing_param::MissingParam::NAME,
            RuleKind::ErrorNoAuthor => errors::no_author::NoAuthor::NAME,
            RuleKind::ErrorNoReturn => errors::no_return::NoReturn::NAME,
            RuleKind::ErrorNoTitle => errors::no_title::NoTitle::NAME,
            RuleKind::EventTooManyNotice => events::too_many_notice::TooManyNotice::NAME,
            RuleKind::FunctionMissingInheritdoc => functions::missing_inheritdoc::MissingInheritdoc::NAME,
            RuleKind::FunctionMissingNotice => functions::missing_notice::MissingNotice::NAME,
            RuleKind::FunctionMissingParams => functions::missing_params::MissingParams::NAME,
            RuleKind::FunctionMissingReturn => functions::missing_return::MissingReturn::NAME,
            RuleKind::FunctionOnlyInheritdoc => functions::only_inheritdoc::OnlyInheritdoc::NAME,
            RuleKind::FunctionTooManyNotice => functions::too_many_notice::TooManyNotice::NAME,
            RuleKind::StructMissingParams => structs::missing_params::MissingParams::NAME,
            RuleKind::StructMissingTitle => structs::missing_title::MissingTitle::NAME,
            RuleKind::VariableMissingInheritdoc => variables::missing_inheritdoc::MissingInheritdoc::NAME,
            RuleKind::VariableMissingNotice => variables::missing_notice::MissingNotice::NAME,
            RuleKind::VariableNoAuthor => variables::no_author::NoAuthor::NAME,
            RuleKind::VariableNoTitle => variables::no_title::NoTitle::NAME,
            RuleKind::VariableTooManyInheritdoc => variables::too_many_inheritdoc::TooManyInheritdoc::NAME,
            RuleKind::VariableTooManyNotice => variables::too_many_notice::TooManyNotice::NAME,
        }
    }

    /// The name of the rule.
    #[verifier::when_used_as_spec(spec_name)]
    pub fn name(&self) -> (r: &'static str)
        ensures
            r == self.spec_name(),
    {
        match self {
            RuleKind::ContractMissingTitle => contracts::missing_title::MissingTitle::NAME,
            RuleKind::ContractNoInheritdoc => contracts::no_inheritdoc::NoInheritdoc::NAME,
            RuleKind::ContractNoParam => contracts::no_param::NoParam::NAME,
            RuleKind::ContractTooManyNotice => contracts::too_many_notice::TooManyNotice::NAME,
            RuleKind::ContractTooManyTitle => contracts::too_many_title::TooManyTitle::NAME,
            RuleKind::EnumMissingTitle => enums::missing_title::MissingTitle::NAME,
            RuleKind::EnumMissingVariant => enums::missing_variant::MissingVariant::NAME,
            RuleKind::EnumTooManyTitle => enums::too_many_title::TooManyTitle::NAME,
            RuleKind::ErrorMissingNotice => errors::missing_notice::MissingNotice::NAME,
            RuleKind::ErrorMissingParam => errors::missing_param::MissingParam::NAME,
            RuleKind::ErrorNoAuthor => errors::no_author::NoAuthor::NAME,
            RuleKind::ErrorNoReturn => errors::no_return::NoReturn::NAME,
            RuleKind::ErrorNoTitle => errors::no_title::NoTitle::NAME,
            RuleKind::EventTooManyNotice => events::too_many_notice::TooManyNotice::NAME,
            RuleKind::FunctionMissingInheritdoc => functions::missing_inheritdoc::MissingInheritdoc::NAME,
            RuleKind::FunctionMissingNotice => functions::missing_notice::MissingNotice::NAME,
            RuleKind::FunctionMissingParams => functions::missing_params::MissingParams::NAME,
            RuleKind::FunctionMissingReturn => functions::missing_return::MissingReturn::NAME,
            RuleKind::FunctionOnlyInheritdoc => functions::only_inheritdoc::OnlyInheritdoc::NAME,
            RuleKind::FunctionTooManyNotice => functions::too_many_notice::TooManyNotice::NAME,
            RuleKind::StructMissingParams => structs::missing_params::MissingParams::NAME,
            RuleKind::StructMissingTitle => structs::missing_title::MissingTitle::NAME,
            RuleKind::VariableMissingInheritdoc => variables::missing_inheritdoc::MissingInheritdoc::NAME,
            RuleKind::VariableMissingNotice => variables::missing_notice::MissingNotice::NAME,
            RuleKind::VariableNoAuthor => variables::no_author::NoAuthor::NAME,
            RuleKind::VariableNoTitle => variables::no_title::NoTitle::NAME,
            RuleKind::VariableTooManyInheritdoc => variables::too_many_inheritdoc::TooManyInheritdoc::NAME,
            RuleKind::VariableTooManyNotice => variables::too_many_notice::TooManyNotice::NAME,
        }
    }

    /// The verdict of the rule on a definition inside `parent` with `comments`; a definition
    /// of another kind than the rule's target gets none.
    pub open spec fn verdict(
        self,
        parent: Option<ContractDef>,
        source: ParseSource,
        comments: Seq<NatspecView>,
    ) -> Option<ViolationView> {
        match (self, source) {
            (RuleKind::ContractMissingTitle, ParseSource::Contract(d)) => contracts::missing_title::MissingTitle::spec_check(d, comments),
            (RuleKind::ContractNoInheritdoc, ParseSource::Contract(d)) => contracts::no_inheritdoc::NoInheritdoc::spec_check(d, comments),
            (RuleKind::ContractNoParam, ParseSource::Contract(d)) => contracts::no_param::NoParam::spec_check(d, comments),
            (RuleKind::ContractTooManyNotice, ParseSource::Contract(d)) => contracts::too_many_notice::TooManyNotice::spec_check(d, comments),
            (RuleKind::ContractTooManyTitle, ParseSource::Contract(d)) => contracts::too_many_title::TooManyTitle::spec_check(d, comments),
            (RuleKind::EnumMissingTitle, ParseSource::Enum(d)) => enums::missing_title::MissingTitle::spec_check(d, comments),
            (RuleKind::EnumMissingVariant, ParseSource::Enum(d)) => enums::missing_variant::MissingVariant::spec_check(d, comments),
            (RuleKind::EnumTooManyTitle, ParseSource::Enum(d)) => enums::too_many_title::TooManyTitle::spec_check(d, comments),
            (RuleKind::ErrorMissingNotice, ParseSource::Error(d)) => errors::missing_notice::MissingNotice::spec_check(d, comments),
            (RuleKind::ErrorMissingParam, ParseSource::Error(d)) => errors::missing_param::MissingParam::spec_check(d, comments),
            (RuleKind::ErrorNoAuthor, ParseSource::Error(d)) => errors::no_author::NoAuthor::spec_check(d, comments),
            (RuleKind::ErrorNoReturn, ParseSource::Error(d)) => errors::no_return::NoReturn::spec_check(d, comments),
            (RuleKind::ErrorNoTitle, ParseSource::Error(d)) => errors::no_title::NoTitle::spec_check(d, comments),
            (RuleKind::EventTooManyNotice, ParseSource::Event(d)) => events::too_many_notice::TooManyNotice::spec_check(d, comments),
            (RuleKind::FunctionMissingInheritdoc, ParseSource::Function(d)) => functions::missing_inheritdoc::MissingInheritdoc::spec_check(parent, d, comments),
            (RuleKind::FunctionMissingNotice, ParseSource::Function(d)) => functions::missing_notice::MissingNotice::spec_check(d, comments),
            (RuleKind::FunctionMissingParams, ParseSource::Function(d)) => functions::missing_params::MissingParams::spec_check(d, comments),
            (RuleKind::FunctionMissingReturn, ParseSource::Function(d)) => functions::missing_return::MissingReturn::spec_check(d, comments),
            (RuleKind::FunctionOnlyInheritdoc, ParseSource::Function(d)) => functions::only_inheritdoc::OnlyInheritdoc::spec_check(d, comments),
            (RuleKind::FunctionTooManyNotice, ParseSource::Function(d)) => functions::too_many_notice::TooManyNotice::spec_check(d, comments),
            (RuleKind::StructMissingParams, ParseSource::Struct(d)) => structs::missing_params::MissingParams::spec_check(d, comments),
            (RuleKind::StructMissingTitle, ParseSource::Struct(d)) => structs::missing_title::MissingTitle::spec_check(d, comments),
            (RuleKind::VariableMissingInheritdoc, ParseSource::Variable(d)) => variables::missing_inheritdoc::MissingInheritdoc::spec_check(parent, d, comments),
            (RuleKind::VariableMissingNotice, ParseSource::Variable(d)) => variables::missing_notice::MissingNotice::spec_check(d, comments),
            (RuleKind::VariableNoAuthor, ParseSource::Variable(d)) => variables::no_author::NoAuthor::spec_check(d, comments),
            (RuleKind::VariableNoTitle, ParseSource::Variable(d)) => variables::no_title::NoTitle::spec_check(d, comments),
            (RuleKind::VariableTooManyInheritdoc, ParseSource::Variable(d)) => variables::too_many_inheritdoc::TooManyInheritdoc::spec_check(d, comments),
            (RuleKind::VariableTooManyNotice, ParseSource::Variable(d)) => variables::too_many_notice::TooManyNotice::spec_check(d, comments),
            _ => None,
        }
    }

    /// Checks a definition inside `parent`, documented by `comments`, against the rule.
    pub fn check(
        &self,
        parent: Option<&ParseItem>,
        source: &ParseSource,
        comments: &CommentsRef,
    ) -> (r: Option<Violation>)
        ensures
            opt_violation_view(r) == self.verdict(parent_contract(parent), *source, comments@),
    {
        match (self, source) {
            (RuleKind::ContractMissingTitle, ParseSource::Contract(d)) => contracts::missing_title::MissingTitle::check(parent, d, comments),
            (RuleKind::ContractNoInheritdoc, ParseSource::Contract(d)) => contracts::no_inheritdoc::NoInheritdoc::check(parent, d, comments),
            (RuleKind::ContractNoParam, ParseSource::Contract(d)) => contracts::no_param::NoParam::check(parent, d, comments),
            (RuleKind::ContractTooManyNotice, ParseSource::Contract(d)) => contracts::too_many_notice::TooManyNotice::check(parent, d, comments),
            (RuleKind::ContractTooManyTitle, ParseSource::Contract(d)) => contracts::too_many_title::TooManyTitle::check(parent, d, comments),
            (RuleKind::EnumMissingTitle, ParseSource::Enum(d)) => enums::missing_title::MissingTitle::check(parent, d, comments),
            (RuleKind::EnumMissingVariant, ParseSource::Enum(d)) => enums::missing_variant::MissingVariant::check(parent, d, comments),
            (RuleKind::EnumTooManyTitle, ParseSource::Enum(d)) => enums::too_many_title::TooManyTitle::check(parent, d, comments),
            (RuleKind::ErrorMissingNotice, ParseSource::Error(d)) => errors::missing_notice::MissingNotice::check(parent, d, comments),
            (RuleKind::ErrorMissingParam, ParseSource::Error(d)) => errors::missing_param::MissingParam::check(parent, d, comments),
            (RuleKind::ErrorNoAuthor, ParseSource::Error(d)) => errors::no_author::NoAuthor::check(parent, d, comments),
            (RuleKind::ErrorNoReturn, ParseSource::Error(d)) => errors::no_return::NoReturn::check(parent, d, comments),
            (RuleKind::ErrorNoTitle, ParseSource::Error(d)) => errors::no_title::NoTitle::check(parent, d, comments),
            (RuleKind::EventTooManyNotice, ParseSource::Event(d)) => events::too_many_notice::TooManyNotice::check(parent, d, comments),
            (RuleKind::FunctionMissingInheritdoc, ParseSource::Function(d)) => functions::missing_inheritdoc::MissingInheritdoc::check(parent, d, comments),
            (RuleKind::FunctionMissingNotice, ParseSource::Function(d)) => functions::missing_notice::MissingNotice::check(parent, d, comments),
            (RuleKind::FunctionMissingParams, ParseSource::Function(d)) => functions::missing_params::MissingParams::check(parent, d, comments),
            (RuleKind::FunctionMissingReturn, ParseSource::Function(d)) => functions::missing_return::MissingReturn::check(parent, d, comments),
            (RuleKind::FunctionOnlyInheritdoc, ParseSource::Function(d)) => functions::only_inheritdoc::OnlyInheritdoc::check(parent, d, comments),
            (RuleKind::FunctionTooManyNotice, ParseSource::Function(d)) => functions::too_many_notice::TooManyNotice::check(parent, d, comments),
            (RuleKind::StructMissingParams, ParseSource::Struct(d)) => structs::missing_params::MissingParams::check(parent, d, comments),
            (RuleKind::StructMissingTitle, ParseSource::Struct(d)) => structs::missing_title::MissingTitle::check(parent, d, comments),
            (RuleKind::VariableMissingInheritdoc, ParseSource::Variable(d)) => variables::missing_inheritdoc::MissingInheritdoc::check(parent, d, comments),
            (RuleKind::VariableMissingNotice, ParseSource::Variable(d)) => variables::missing_notice::MissingNotice::check(parent, d, comments),
            (RuleKind::VariableNoAuthor, ParseSource::Variable(d)) => variables::no_author::NoAuthor::check(parent, d, comments),
            (RuleKind::VariableNoTitle, ParseSource::Variable(d)) => variables::no_title::NoTitle::check(parent, d, comments),
            (RuleKind::VariableTooManyInheritdoc, ParseSource::Variable(d)) => variables::too_many_inheritdoc::TooManyInheritdoc::check(parent, d, comments),
            (RuleKind::VariableTooManyNotice, ParseSource::Variable(d)) => variables::too_many_notice::TooManyNotice::check(parent, d, comments),
            _ => None,
        }
    }
}

/// Every rule.
pub fn all_rules() -> (r: Vec<RuleKind>)
    ensures
        forall|k: RuleKind| #[trigger] r@.contains(k),
{
    let r = vec![
        RuleKind::ContractMissingTitle,
        RuleKind::ContractNoInheritdoc,
        RuleKind::ContractNoParam,
        RuleKind::ContractTooManyNotice,
        RuleKind::ContractTooManyTitle,
        RuleKind::EnumMissingTitle,
        RuleKind::EnumMissingVariant,
        RuleKind::EnumTooManyTitle,
        RuleKind::ErrorMissingNotice,
        RuleKind::ErrorMissingParam,
        RuleKind::ErrorNoAuthor,
        RuleKind::ErrorNoReturn,
        RuleKind::ErrorNoTitle,
        RuleKind::EventTooManyNotice,
        RuleKind::FunctionMissingInheritdoc,
        RuleKind::FunctionMissingNotice,
        RuleKind::FunctionMissingParams,
        RuleKind::FunctionMissingReturn,
        RuleKind::FunctionOnlyInheritdoc,
        RuleKind::FunctionTooManyNotice,
        RuleKind::StructMissingParams,
        RuleKind::StructMissingTitle,
        RuleKind::VariableMissingInheritdoc,
        RuleKind::VariableMissingNotice,
        RuleKind::VariableNoAuthor,
        RuleKind::VariableNoTitle,
        RuleKind::VariableTooManyInheritdoc,
        RuleKind::VariableTooManyNotice,
    ];
    assert forall|k: RuleKind| #[trigger] r@.contains(k) by {
        match k {
            RuleKind::ContractMissingTitle => assert(r@[0] == k),
            RuleKind::ContractNoInheritdoc => assert(r@[1] == k),
            RuleKind::ContractNoParam => assert(r@[2] == k),
            RuleKind::ContractTooManyNotice => assert(r@[3] == k),
            RuleKind::ContractTooManyTitle => assert(r@[4] == k),
            RuleKind::EnumMissingTitle => assert(r@[5] == k),
            RuleKind::EnumMissingVariant => assert(r@[6] == k),
            RuleKind::EnumTooManyTitle => assert(r@[7] == k),
            RuleKind::ErrorMissingNotice => assert(r@[8] == k),
            RuleKind::ErrorMissingParam => assert(r@[9] == k),
            RuleKind::ErrorNoAuthor => assert(r@[10] == k),
            RuleKind::ErrorNoReturn => assert(r@[11] == k),
            RuleKind::ErrorNoTitle => assert(r@[12] == k),
            RuleKind::EventTooManyNotice => assert(r@[13] == k),
            RuleKind::FunctionMissingInheritdoc => assert(r@[14] == k),
            RuleKind::FunctionMissingNotice => assert(r@[15] == k),
            RuleKind::FunctionMissingParams => assert(r@[16] == k),
            RuleKind::FunctionMissingReturn => assert(r@[17] == k),
            RuleKind::FunctionOnlyInheritdoc => assert(r@[18] == k),
            RuleKind::FunctionTooManyNotice => assert(r@[19] == k),
            RuleKind::StructMissingParams => assert(r@[20] == k),
            RuleKind::StructMissingTitle => assert(r@[21] == k),
            RuleKind::VariableMissingInheritdoc => assert(r@[22] == k),
            RuleKind::VariableMissingNotice => assert(r@[23] == k),
            RuleKind::VariableNoAuthor => assert(r@[24] == k),
            RuleKind::VariableNoTitle => assert(r@[25] == k),
            RuleKind::VariableTooManyInheritdoc => assert(r@[26] == k),
            RuleKind::VariableTooManyNotice => assert(r@[27] == k),
        }
    }
    r
}

/// The rules that are on unless chosen: all but the title rules for enums and structs,
/// `MissingVariant` and `OnlyInheritdoc`.
pub open spec fn on_by_default(k: RuleKind) -> bool {
    !(k is EnumMissingTitle || k is EnumMissingVariant || k is FunctionOnlyInheritdoc
        || k is StructMissingTitle)
}

/// The rules that are on by default.
pub fn default_rules() -> (r: Vec<RuleKind>)
    ensures
        forall|k: RuleKind| #[trigger] r@.contains(k) <==> on_by_default(k),
{
    let r = vec![
        RuleKind::ContractMissingTitle,
        RuleKind::ContractNoInheritdoc,
        RuleKind::ContractNoParam,
        RuleKind::ContractTooManyNotice,
        RuleKind::ContractTooManyTitle,
        RuleKind::EnumTooManyTitle,
        RuleKind::ErrorMissingNotice,
        RuleKind::ErrorMissingParam,
        RuleKind::ErrorNoAuthor,
        RuleKind::ErrorNoReturn,
        RuleKind::ErrorNoTitle,
        RuleKind::EventTooManyNotice,
        RuleKind::FunctionMissingInheritdoc,
        RuleKind::FunctionMissingNotice,
        RuleKind::FunctionMissingParams,
        RuleKind::FunctionMissingReturn,
        RuleKind::FunctionTooManyNotice,
        RuleKind::StructMissingParams,
        RuleKind::VariableMissingInheritdoc,
        RuleKind::VariableMissingNotice,
        RuleKind::VariableNoAuthor,
        RuleKind::VariableNoTitle,
        RuleKind::VariableTooManyInheritdoc,
        RuleKind::VariableTooManyNotice,
    ];
    assert forall|k: RuleKind| #[trigger] r@.contains(k) <==> on_by_default(k) by {
        match k {
            RuleKind::ContractMissingTitle => assert(r@[0] == k),
            RuleKind::ContractNoInheritdoc => assert(r@[1] == k),
            RuleKind::ContractNoParam => assert(r@[2] == k),
            RuleKind::ContractTooManyNotice => assert(r@[3] == k),
            RuleKind::ContractTooManyTitle => assert(r@[4] == k),
            RuleKind::EnumMissingTitle => {},
            RuleKind::EnumMissingVariant => {},
            RuleKind::EnumTooManyTitle => assert(r@[5] == k),
            RuleKind::ErrorMissingNotice => assert(r@[6] == k),
            RuleKind::ErrorMissingParam => assert(r@[7] == k),
            RuleKind::ErrorNoAuthor => assert(r@[8] == k),
            RuleKind::ErrorNoReturn => assert(r@[9] == k),
            RuleKind::ErrorNoTitle => assert(r@[10] == k),
            RuleKind::EventTooManyNotice => assert(r@[11] == k),
            RuleKind::FunctionMissingInheritdoc => assert(r@[12] == k),
            RuleKind::FunctionMissingNotice => assert(r@[13] == k),
            RuleKind::FunctionMissingParams => assert(r@[14] == k),
            RuleKind::FunctionMissingReturn => assert(r@[15] == k),
            RuleKind::FunctionOnlyInheritdoc => {},
            RuleKind::FunctionTooManyNotice => assert(r@[16] == k),
            RuleKind::StructMissingParams => assert(r@[17] == k),
            RuleKind::StructMissingTitle => {},
            RuleKind::VariableMissingInheritdoc => assert(r@[18] == k),
            RuleKind::VariableMissingNotice => assert(r@[19] == k),
            RuleKind::VariableNoAuthor => assert(r@[20] == k),
            RuleKind::VariableNoTitle => assert(r@[21] == k),
            RuleKind::VariableTooManyInheritdoc => assert(r@[22] == k),
            RuleKind::VariableTooManyNotice => assert(r@[23] == k),
        }
    }
    r
}

} // verus!
