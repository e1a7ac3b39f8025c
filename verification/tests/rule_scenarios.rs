use natspec_lint::comments::{CommentTag, CommentsRef};
use natspec_lint::parser::Parser;
use natspec_lint::rules::enums::missing_variant::MissingVariant;
use natspec_lint::rules::errors::missing_param::MissingParam;
use natspec_lint::rules::functions::missing_inheritdoc::MissingInheritdoc;
use natspec_lint::rules::functions::missing_notice::MissingNotice;
use natspec_lint::rules::functions::missing_params::MissingParams;
use natspec_lint::rules::functions::missing_return::MissingReturn;
use natspec_lint::rules::functions::only_inheritdoc::OnlyInheritdoc;
use natspec_lint::rules::structs::missing_params::MissingParams as StructMissingParams;
use natspec_lint::rules::variables::missing_inheritdoc::MissingInheritdoc as VariableMissingInheritdoc;
use natspec_lint::rules::variables::missing_notice::MissingNotice as VariableMissingNotice;
use natspec_lint::solang::parse_solidity;
use natspec_lint::violation::{Violation, ViolationError};

fn parse_source(src: &str) -> Parser {
    let (unit, comments) = parse_solidity(src).expect("failed to parse source");
    let mut doc = Parser::new(comments);
    doc.visit_source_unit(unit).expect("failed to visit source");
    doc
}

fn check_enum(src: &str) -> (Option<Violation>, natspec_lint::model::EnumDef) {
    let src = parse_source(src);
    let parent = src.items_ref().first().unwrap();
    let child = parent.children.first().unwrap();
    let item = child.as_enum().unwrap();
    let comments = CommentsRef::from(&child.comments);
    (MissingVariant::check(None, item, &comments), item.clone())
}

fn check_error(src: &str) -> (Option<Violation>, natspec_lint::model::ErrorDef) {
    let src = parse_source(src);
    let parent = src.items_ref().first().unwrap();
    let child = parent.children.first().unwrap();
    let item = child.as_error().unwrap();
    let comments = CommentsRef::from(&child.comments);
    (MissingParam::check(None, item, &comments), item.clone())
}

fn check_struct(src: &str) -> (Option<Violation>, natspec_lint::model::StructDef) {
    let src = parse_source(src);
    let parent = src.items_ref().first().unwrap();
    let child = parent.children.first().unwrap();
    let item = child.as_struct().unwrap();
    let comments = CommentsRef::from(&child.comments);
    (StructMissingParams::check(None, item, &comments), item.clone())
}

/// Runs a function rule on the first part of the first contract of `src`.
fn check_function(
    src: &str,
    check: fn(
        Option<&natspec_lint::items::ParseItem>,
        &natspec_lint::model::FunctionDef,
        &CommentsRef,
    ) -> Option<Violation>,
) -> (Option<Violation>, natspec_lint::model::FunctionDef) {
    let src = parse_source(src);
    let parent = src.items_ref().first().unwrap();
    let child = parent.children.first().unwrap();
    let func = child.as_function().unwrap();
    let comments = CommentsRef::from(&child.comments);
    (check(Some(parent), func, &comments), func.clone())
}

/// Runs a variable rule on the first part of the first contract of `src`.
fn check_variable(
    src: &str,
    check: fn(
        Option<&natspec_lint::items::ParseItem>,
        &natspec_lint::model::VariableDef,
        &CommentsRef,
    ) -> Option<Violation>,
) -> (Option<Violation>, natspec_lint::model::VariableDef) {
    let src = parse_source(src);
    let parent = src.items_ref().first().unwrap();
    let child = parent.children.first().unwrap();
    let var = child.as_variable().unwrap();
    let comments = CommentsRef::from(&child.comments);
    (check(Some(parent), var, &comments), var.clone())
}

// MissingVariant

#[test]
fn missing_variant_no_violation() {
    let (r, _) = check_enum(
        r"
        interface Test {
            /// @custom:variant Some Some variant
            enum Option {
                Some
            }
        }
        ",
    );
    assert_eq!(r, None);
}

#[test]
fn missing_variant_empty_no_violation() {
    let (r, _) = check_enum(
        r"
        interface Test {
            enum Option {
            }
        }
        ",
    );
    assert_eq!(r, None);
}

#[test]
fn missing_variant_multi_no_violation() {
    let (r, _) = check_enum(
        r"
        interface Test {
            /// @custom:variant Some Some variant
            /// @custom:variant None Other variant
            enum Option {
                Some,
                None
            }
        }
        ",
    );
    assert_eq!(r, None);
}

#[test]
fn missing_variant_multiline_no_violation() {
    let (r, _) = check_enum(
        r"
        interface Test {
            /**
             * @custom:variant Some Some variant
             * @custom:variant None Other variant
             */
            enum Option {
                Some,
                None
            }
        }
        ",
    );
    assert_eq!(r, None);
}

#[test]
fn missing_variant_too_many_comments_violation() {
    let (r, item) = check_enum(
        r"
        interface Test {
            /// @custom:variant Some Some variant
            /// @custom:variant None Other variant
            enum Option {
                Some
            }
        }
        ",
    );
    assert_eq!(
        r,
        Some(Violation::new(
            MissingVariant::NAME,
            MissingVariant::DESCRIPTION,
            ViolationError::TooManyComments(CommentTag::variant()),
            item.loc
        ))
    );
}

#[test]
fn missing_variant_multiline_too_many_comments_violation() {
    let (r, item) = check_enum(
        r"
        interface Test {
            /**
             * @custom:variant Some Some variant
             * @custom:variant None Other variant
             */
            enum Option {
                Some
            }
        }
        ",
    );
    assert_eq!(
        r,
        Some(Violation::new(
            MissingVariant::NAME,
            MissingVariant::DESCRIPTION,
            ViolationError::TooManyComments(CommentTag::variant()),
            item.loc
        ))
    );
}

#[test]
fn missing_variant_empty_violation() {
    let (r, item) = check_enum(
        r"
        interface Test {
            enum Option {
                Some
            }
        }
        ",
    );
    assert_eq!(
        r,
        Some(Violation::new(
            MissingVariant::NAME,
            MissingVariant::DESCRIPTION,
            ViolationError::MissingComment(CommentTag::variant()),
            item.loc
        ))
    );
}

#[test]
fn missing_variant_missing_param_name_violation() {
    let (r, item) = check_enum(
        r"
        interface Test {
            /// @custom:variant Some Some variant
            /// @custom:variant wrong Wrong variant
            enum Option {
                Some,
                None
            }
        }
        ",
    );
    assert_eq!(
        r,
        Some(Violation::new(
            MissingVariant::NAME,
            MissingVariant::DESCRIPTION,
            ViolationError::missing_comment_for(CommentTag::variant(), "None"),
            item.values[1].as_ref().unwrap().loc
        ))
    );
}

#[test]
fn missing_variant_multiline_missing_param_name_violation() {
    let (r, item) = check_enum(
        r"
        interface Test {
            /**
             * @custom:variant Some Some variant
             * @custom:variant wrong Wrong variant
             */
            enum Option {
                Some,
                None
            }
        }
        ",
    );
    assert_eq!(
        r,
        Some(Violation::new(
            MissingVariant::NAME,
            MissingVariant::DESCRIPTION,
            ViolationError::missing_comment_for(CommentTag::variant(), "None"),
            item.values[1].as_ref().unwrap().loc
        ))
    );
}

// MissingParam (errors)

#[test]
fn missing_param_no_violation() {
    let (r, _) = check_error(
        r"
        interface Test {
            /// @param a Some param
            error Unauthorized(address a);
        }
        ",
    );
    assert_eq!(r, None);
}

#[test]
fn missing_param_empty_no_violation() {
    let (r, _) = check_error(
        r"
        interface Test {
            error Unauthorized();
        }
        ",
    );
    assert_eq!(r, None);
}

#[test]
fn missing_param_multi_no_violation() {
    let (r, _) = check_error(
        r"
        interface Test {
            /// @param a Some param
            /// @param b Some param
            error Unauthorized(address a, address b);
        }
        ",
    );
    assert_eq!(r, None);
}

#[test]
fn missing_param_multiline_no_violation() {
    let (r, _) = check_error(
        r"
        interface Test {
            /**
             * @param a Some param
             * @param b Some param
             */
            error Unauthorized(address a, address b);
        }
        ",
    );
    assert_eq!(r, None);
}

#[test]
fn missing_param_too_many_comments_violation() {
    let (r, item) = check_error(
        r"
        interface Test {
            /// @param a Some param
            /// @param b Some param
            error Unauthorized(address a);
        }
        ",
    );
    assert_eq!(
        r,
        Some(Violation::new(
            MissingParam::NAME,
            MissingParam::DESCRIPTION,
            ViolationError::TooManyComments(CommentTag::Param),
            item.loc
        ))
    );
}

#[test]
fn missing_param_multiline_too_many_comments_violation() {
    let (r, item) = check_error(
        r"
        interface Test {
            /**
             * @param a Some param
             * @param b Some param
             */
            error Unauthorized(address a);
        }
        ",
    );
    assert_eq!(
        r,
        Some(Violation::new(
            MissingParam::NAME,
            MissingParam::DESCRIPTION,
            ViolationError::TooManyComments(CommentTag::Param),
            item.loc
        ))
    );
}

#[test]
fn missing_param_empty_violation() {
    let (r, item) = check_error(
        r"
        interface Test {
            error Unauthorized(address a);
        }
        ",
    );
    assert_eq!(
        r,
        Some(Violation::new(
            MissingParam::NAME,
            MissingParam::DESCRIPTION,
            ViolationError::MissingComment(CommentTag::Param),
            item.loc
        ))
    );
}

#[test]
fn missing_param_missing_param_name_violation() {
    let (r, item) = check_error(
        r"
        interface Test {
            /// @param a Some param
            /// @param c Some param
            error Unauthorized(address a, address b);
        }
        ",
    );
    assert_eq!(
        r,
        Some(Violation::new(
            MissingParam::NAME,
            MissingParam::DESCRIPTION,
            ViolationError::missing_comment_for(CommentTag::Param, "b"),
            item.fields[1].name.as_ref().unwrap().loc
        ))
    );
}

#[test]
fn missing_param_multiline_missing_param_name_violation() {
    let (r, item) = check_error(
        r"
        interface Test {
            /**
             * @param a Some param
             * @param c Some param
             */
            error Unauthorized(address a, address b);
        }
        ",
    );
    assert_eq!(
        r,
        Some(Violation::new(
            MissingParam::NAME,
            MissingParam::DESCRIPTION,
            ViolationError::missing_comment_for(CommentTag::Param, "b"),
            item.fields[1].name.as_ref().unwrap().loc
        ))
    );
}

// MissingParams (structs)

#[test]
fn struct_missing_params_no_violation() {
    let (r, _) = check_struct(
        r"
        interface Test {
            /// @param a Some field
            /// @param b Other field
            struct Pair {
                uint256 a;
                uint256 b;
            }
        }
        ",
    );
    assert_eq!(r, None);
}

#[test]
fn struct_missing_params_empty_violation() {
    let (r, item) = check_struct(
        r"
        interface Test {
            struct Pair {
                uint256 a;
            }
        }
        ",
    );
    assert_eq!(
        r,
        Some(Violation::new(
            StructMissingParams::NAME,
            StructMissingParams::DESCRIPTION,
            ViolationError::MissingComment(CommentTag::Param),
            item.loc
        ))
    );
}

#[test]
fn struct_missing_params_name_violation() {
    let (r, item) = check_struct(
        r"
        interface Test {
            /// @param a Some field
            /// @param c Other field
            struct Pair {
                uint256 a;
                uint256 b;
            }
        }
        ",
    );
    assert_eq!(
        r,
        Some(Violation::new(
            StructMissingParams::NAME,
            StructMissingParams::DESCRIPTION,
            ViolationError::missing_comment_for(CommentTag::Param, "b"),
            item.fields[1].name.as_ref().unwrap().loc
        ))
    );
}

// MissingInheritdoc (functions)

fn inheritdoc_violation(func: &natspec_lint::model::FunctionDef) -> Option<Violation> {
    Some(Violation::new(
        MissingInheritdoc::NAME,
        MissingInheritdoc::DESCRIPTION,
        ViolationError::MissingComment(CommentTag::Inheritdoc),
        func.loc,
    ))
}

#[test]
fn missing_inheritdoc_public_violation() {
    let (r, func) = check_function(
        r"
        contract Test {
            /// @notice A function
            function test() public {}
        }
        ",
        MissingInheritdoc::check,
    );
    assert_eq!(r, inheritdoc_violation(&func));
}

#[test]
fn missing_inheritdoc_external_violation() {
    let (r, func) = check_function(
        r"
        contract Test {
            function test() external {}
        }
        ",
        MissingInheritdoc::check,
    );
    assert_eq!(r, inheritdoc_violation(&func));
}

#[test]
fn missing_inheritdoc_override_violation() {
    let (r, func) = check_function(
        r"
        contract Test {
            function test() override {}
        }
        ",
        MissingInheritdoc::check,
    );
    assert_eq!(r, inheritdoc_violation(&func));
}

#[test]
fn missing_inheritdoc_public_no_violation() {
    let (r, _) = check_function(
        r"
        contract Test {
            /// @inheritdoc Base
            function test() public {}
        }
        ",
        MissingInheritdoc::check,
    );
    assert_eq!(r, None);
}

#[test]
fn missing_inheritdoc_private_no_violation() {
    let (r, _) = check_function(
        r"
        contract Test {
            function test() private {}
        }
        ",
        MissingInheritdoc::check,
    );
    assert_eq!(r, None);
}

#[test]
fn missing_inheritdoc_internal_no_violation() {
    let (r, _) = check_function(
        r"
        contract Test {
            function test() internal {}
        }
        ",
        MissingInheritdoc::check,
    );
    assert_eq!(r, None);
}

#[test]
fn missing_inheritdoc_modifier_no_violation() {
    let (r, _) = check_function(
        r"
        contract Test {
            modifier test() {}
        }
        ",
        MissingInheritdoc::check,
    );
    assert_eq!(r, None);
}

#[test]
fn missing_inheritdoc_constructor_no_violation() {
    let (r, _) = check_function(
        r"
        contract Test {
            constructor() {}
        }
        ",
        MissingInheritdoc::check,
    );
    assert_eq!(r, None);
}

#[test]
fn missing_inheritdoc_receive_no_violation() {
    let (r, _) = check_function(
        r"
        contract Test {
            receive() {}
        }
        ",
        MissingInheritdoc::check,
    );
    assert_eq!(r, None);
}

#[test]
fn missing_inheritdoc_fallback_no_violation() {
    let (r, _) = check_function(
        r"
        contract Test {
            fallback() {}
        }
        ",
        MissingInheritdoc::check,
    );
    assert_eq!(r, None);
}

#[test]
fn missing_inheritdoc_interface_no_violation() {
    let (r, _) = check_function(
        r"
        interface Test {
            function test() external;
        }
        ",
        MissingInheritdoc::check,
    );
    assert_eq!(r, None);
}

#[test]
fn missing_inheritdoc_library_no_violation() {
    let (r, _) = check_function(
        r"
        library Test {
            function test() internal;
        }
        ",
        MissingInheritdoc::check,
    );
    assert_eq!(r, None);
}

#[test]
fn missing_inheritdoc_abstract_public_violation() {
    let (r, func) = check_function(
        r"
        abstract contract Test {
            function test() public;
        }
        ",
        MissingInheritdoc::check,
    );
    assert_eq!(r, inheritdoc_violation(&func));
}

// MissingNotice (functions)

fn notice_violation(func: &natspec_lint::model::FunctionDef) -> Option<Violation> {
    Some(Violation::new(
        MissingNotice::NAME,
        MissingNotice::DESCRIPTION,
        ViolationError::MissingComment(CommentTag::Notice),
        func.loc,
    ))
}

#[test]
fn missing_notice_empty_violation() {
    let (r, func) = check_function(
        r"
        contract Test {
            function test(uint256 a) public {}
        }
        ",
        MissingNotice::check,
    );
    assert_eq!(r, notice_violation(&func));
}

#[test]
fn missing_notice_dev_only_violation() {
    let (r, func) = check_function(
        r"
        contract Test {
            /// @dev Some detail
            function test(uint256 a) private {}
        }
        ",
        MissingNotice::check,
    );
    assert_eq!(r, notice_violation(&func));
}

#[test]
fn missing_notice_notice_no_violation() {
    let (r, _) = check_function(
        r"
        contract Test {
            /// @notice Some function
            function test(uint256 a) public {}
        }
        ",
        MissingNotice::check,
    );
    assert_eq!(r, None);
}

#[test]
fn missing_notice_long_multiline_no_tag_no_violation() {
    let (r, _) = check_function(
        r"
        contract Test {
            /**
             * Some function
             * next line
             */
            function test(uint256 a) public {}
        }
        ",
        MissingNotice::check,
    );
    assert_eq!(r, None);
}

#[test]
fn missing_notice_inheritdoc_no_violation() {
    let (r, _) = check_function(
        r"
        contract Test {
            /// @inheritdoc something
            function test(uint256 a) public {}
        }
        ",
        MissingNotice::check,
    );
    assert_eq!(r, None);
}

#[test]
fn missing_notice_multiline_inheritdoc_no_violation() {
    let (r, _) = check_function(
        r"
        contract Test {
            /**
             * @inheritdoc something
             */
            function test(uint256 a) private {}
        }
        ",
        MissingNotice::check,
    );
    assert_eq!(r, None);
}

#[test]
fn missing_notice_no_tag_no_violation() {
    let (r, _) = check_function(
        r"
            contract Test {
                /// Some function
                function test(uint256 a) public {}
            }
        ",
        MissingNotice::check,
    );
    assert_eq!(r, None);
}

#[test]
fn missing_notice_multiline_no_tag_no_violation() {
    let (r, _) = check_function(
        r"
        contract Test {
            /**
             * Some function
             */
            function test(uint256 a) private {}
        }
        ",
        MissingNotice::check,
    );
    assert_eq!(r, None);
}

// MissingParams (functions)

fn params_violation(func: &natspec_lint::model::FunctionDef, error: ViolationError) -> Option<Violation> {
    Some(Violation::new(MissingParams::NAME, MissingParams::DESCRIPTION, error, func.loc))
}

#[test]
fn missing_params_no_params_no_violation() {
    let (r, _) = check_function(
        r"
        contract Test {
            function test() public {}
        }
        ",
        MissingParams::check,
    );
    assert_eq!(r, None);
}

#[test]
fn missing_params_public_no_violation() {
    let (r, _) = check_function(
        r"
        contract Test {
            /// @param a A number
            function test(uint256 a) public {}
        }
        ",
        MissingParams::check,
    );
    assert_eq!(r, None);
}

#[test]
fn missing_params_private_no_violation() {
    let (r, _) = check_function(
        r"
        contract Test {
            /// @param a A number
            function test(uint256 a) private {}
        }
        ",
        MissingParams::check,
    );
    assert_eq!(r, None);
}

#[test]
fn missing_params_dollar_no_violation() {
    let (r, _) = check_function(
        r"
        contract Test {
            /// @param $ A number
            function test(uint256 $) private {}
        }
        ",
        MissingParams::check,
    );
    assert_eq!(r, None);
}

#[test]
fn missing_params_multiline_no_violation() {
    let (r, _) = check_function(
        r"
        contract Test {
            /**
             * @param a A number
             */
            function test(uint256 a) private {}
        }
        ",
        MissingParams::check,
    );
    assert_eq!(r, None);
}

#[test]
fn missing_params_inheritdoc_no_violation() {
    let (r, _) = check_function(
        r"
        contract Test {
            /// @inheritdoc something
            function test(uint256 a) public {}
        }
        ",
        MissingParams::check,
    );
    assert_eq!(r, None);
}

#[test]
fn missing_params_multiline_inheritdoc_no_violation() {
    let (r, _) = check_function(
        r"
        contract Test {
            /**
             * @inheritdoc something
             */
            function test(uint256 a) public {}
        }
        ",
        MissingParams::check,
    );
    assert_eq!(r, None);
}

#[test]
fn missing_params_unnamed_no_violation() {
    let (r, _) = check_function(
        r"
        contract Test {
            /// @param A number
            function test(uint256) public {}
        }
        ",
        MissingParams::check,
    );
    assert_eq!(r, None);
}

#[test]
fn missing_params_multiple_no_violation() {
    let (r, _) = check_function(
        r"
        contract Test {
            /// @param a A number
            /// @param lol A string
            function test(uint256 a, string memory lol) public {}
        }
        ",
        MissingParams::check,
    );
    assert_eq!(r, None);
}

#[test]
fn missing_params_unnamed_multiple_no_violation() {
    let (r, _) = check_function(
        r"
        contract Test {
            /// @param a A number
            /// @param A string
            function test(uint256 a, string memory) public {}
        }
        ",
        MissingParams::check,
    );
    assert_eq!(r, None);
}

#[test]
fn missing_params_public_violation() {
    let (r, func) = check_function(
        r"
        contract Test {
            /// @notice Some function
            function test(uint256 a) public {}
        }
        ",
        MissingParams::check,
    );
    assert_eq!(r, params_violation(&func, ViolationError::MissingComment(CommentTag::Param)));
}

#[test]
fn missing_params_too_many_comments_violation() {
    let (r, func) = check_function(
        r"
        contract Test {
            /// @param a A number
            /// @param b A number
            function test(uint256 a) public {}
        }
        ",
        MissingParams::check,
    );
    assert_eq!(r, params_violation(&func, ViolationError::TooManyComments(CommentTag::Param)));
}

#[test]
fn missing_params_no_params_violation() {
    let (r, func) = check_function(
        r"
        contract Test {
            /// @param a A number
            function test() public {}
        }
        ",
        MissingParams::check,
    );
    assert_eq!(r, params_violation(&func, ViolationError::TooManyComments(CommentTag::Param)));
}

#[test]
fn missing_params_multiline_many_comments_violation() {
    let (r, func) = check_function(
        r"
        contract Test {
            /**
             * @param a A number
             * @param b A number
             */
            function test(uint256 a) public {}
        }
        ",
        MissingParams::check,
    );
    assert_eq!(r, params_violation(&func, ViolationError::TooManyComments(CommentTag::Param)));
}

#[test]
fn missing_params_name_not_found_violation() {
    let (r, func) = check_function(
        r"
        contract Test {
            /// @param a A number
            /// @param c A number
            function test(uint256 a, uint256 b) public {}
        }
        ",
        MissingParams::check,
    );
    assert_eq!(
        r,
        Some(Violation::new(
            MissingParams::NAME,
            MissingParams::DESCRIPTION,
            ViolationError::missing_comment_for(CommentTag::Param, "b"),
            func.params[1].0
        ))
    );
}

#[test]
fn missing_params_multiline_name_not_found_violation() {
    let (r, func) = check_function(
        r"
        contract Test {
            /**
             * @param a A number
             * @param c A number
             */
            function test(uint256 a, uint256 b) public {}
        }
        ",
        MissingParams::check,
    );
    assert_eq!(
        r,
        Some(Violation::new(
            MissingParams::NAME,
            MissingParams::DESCRIPTION,
            ViolationError::missing_comment_for(CommentTag::Param, "b"),
            func.params[1].0
        ))
    );
}

// MissingReturn

fn return_violation(func: &natspec_lint::model::FunctionDef, error: ViolationError) -> Option<Violation> {
    Some(Violation::new(MissingReturn::NAME, MissingReturn::DESCRIPTION, error, func.loc))
}

#[test]
fn missing_return_no_return_no_violation() {
    let (r, _) = check_function(
        r"
        contract Test {
            function test(uint256) public {}
        }
        ",
        MissingReturn::check,
    );
    assert_eq!(r, None);
}

#[test]
fn missing_return_named_no_violation() {
    let (r, _) = check_function(
        r"
        contract Test {
            /// @return b A number
            function test(uint256) public returns (uint256 b) {}
        }
        ",
        MissingReturn::check,
    );
    assert_eq!(r, None);
}

#[test]
fn missing_return_unnamed_no_violation() {
    let (r, _) = check_function(
        r"
        contract Test {
            /// @return A number
            function test(uint256) public returns (uint256) {}
        }
        ",
        MissingReturn::check,
    );
    assert_eq!(r, None);
}

#[test]
fn missing_return_dollar_no_violation() {
    let (r, _) = check_function(
        r"
        contract Test {
            /// @return $ A number
            function test(uint256) public returns (uint256 $) {}
        }
        ",
        MissingReturn::check,
    );
    assert_eq!(r, None);
}

#[test]
fn missing_return_memory_no_violation() {
    let (r, _) = check_function(
        r"
        contract Test {
            /// @return b Some bytes
            function test(uint256) public returns (bytes memory b) {}
        }
        ",
        MissingReturn::check,
    );
    assert_eq!(r, None);
}

#[test]
fn missing_return_multiline_no_violation() {
    let (r, _) = check_function(
        r"
        contract Test {
            /**
             * @return b A number
             */
            function test(uint256) private returns (uint256 b) {}
        }
        ",
        MissingReturn::check,
    );
    assert_eq!(r, None);
}

#[test]
fn missing_return_inheritdoc_no_violation() {
    let (r, _) = check_function(
        r"
        contract Test {
            /// @inheritdoc something
            function test(uint256) public returns (uint256 b) {}
        }
        ",
        MissingReturn::check,
    );
    assert_eq!(r, None);
}

#[test]
fn missing_return_multiple_no_violation() {
    let (r, _) = check_function(
        r"
        contract Test {
            /// @return a A number
            /// @return b Some string
            function test(uint256) public returns (uint256 a, string memory b) {}
        }
        ",
        MissingReturn::check,
    );
    assert_eq!(r, None);
}

#[test]
fn missing_return_multiple_multiline_no_violation() {
    let (r, _) = check_function(
        r"
        contract Test {
            /**
             * @return a A number
             * @return b Some string
             */
            function test(uint256) public returns (uint256 a, string memory b) {}
        }
        ",
        MissingReturn::check,
    );
    assert_eq!(r, None);
}

#[test]
fn missing_return_unnamed_multiple_no_violation() {
    let (r, _) = check_function(
        r"
        contract Test {
            /// @return a A number
            /// @return Some string
            function test(uint256) public returns (uint256 a, string memory) {}
        }
        ",
        MissingReturn::check,
    );
    assert_eq!(r, None);
}

#[test]
fn missing_return_named_violation() {
    let (r, func) = check_function(
        r"
        contract Test {
            /// @notice Some function
            function test(uint256) public returns (uint256 a) {}
        }
        ",
        MissingReturn::check,
    );
    assert_eq!(r, return_violation(&func, ViolationError::MissingComment(CommentTag::Return)));
}

#[test]
fn missing_return_unnamed_violation() {
    let (r, func) = check_function(
        r"
        contract Test {
            /// @notice Some function
            function test(uint256) public returns (uint256) {}
        }
        ",
        MissingReturn::check,
    );
    assert_eq!(r, return_violation(&func, ViolationError::MissingComment(CommentTag::Return)));
}

#[test]
fn missing_return_too_many_comments_violation() {
    let (r, func) = check_function(
        r"
        contract Test {
            /// @return a A number
            /// @return b A number
            function test(uint256) public returns (uint256 a) {}
        }
        ",
        MissingReturn::check,
    );
    assert_eq!(r, return_violation(&func, ViolationError::TooManyComments(CommentTag::Return)));
}

#[test]
fn missing_return_name_not_found_violation() {
    let (r, func) = check_function(
        r"
        contract Test {
            /// @return a A number
            /// @return c A number
            function test(uint256) public returns (uint256 a, uint256 b) {}
        }
        ",
        MissingReturn::check,
    );
    assert_eq!(
        r,
        Some(Violation::new(
            MissingReturn::NAME,
            MissingReturn::DESCRIPTION,
            ViolationError::missing_comment_for(CommentTag::Return, "b"),
            func.returns[1].0
        ))
    );
}

// OnlyInheritdoc

fn only_inheritdoc_violation(func: &natspec_lint::model::FunctionDef) -> Option<Violation> {
    Some(Violation::new(
        OnlyInheritdoc::NAME,
        OnlyInheritdoc::DESCRIPTION,
        ViolationError::OnlyInheritdoc,
        func.loc,
    ))
}

#[test]
fn only_inheritdoc_inheritdoc_no_violation() {
    let (r, _) = check_function(
        r"
        contract Test {
            /// @inheritdoc Base
            function test() public {}
        }
        ",
        OnlyInheritdoc::check,
    );
    assert_eq!(r, None);
}

#[test]
fn only_inheritdoc_empty_no_violation() {
    let (r, _) = check_function(
        r"
        contract Test {
            function test() external {}
        }
        ",
        OnlyInheritdoc::check,
    );
    assert_eq!(r, None);
}

#[test]
fn only_inheritdoc_no_inheritdoc_no_violation() {
    let (r, _) = check_function(
        r"
        contract Test {
            /// @notice A test function
            function test() override {}
        }
        ",
        OnlyInheritdoc::check,
    );
    assert_eq!(r, None);
}

#[test]
fn only_inheritdoc_public_violation() {
    let (r, func) = check_function(
        r"
        contract Test {
            /// @notice A test function
            /// @inheritdoc Base
            function test() public {}
        }
        ",
        OnlyInheritdoc::check,
    );
    assert_eq!(r, only_inheritdoc_violation(&func));
}

#[test]
fn only_inheritdoc_multiline_violation() {
    let (r, func) = check_function(
        r"
        contract Test {
            /**
             * @notice A test function
             * @inheritdoc Base
             */
            function test() public {}
        }
        ",
        OnlyInheritdoc::check,
    );
    assert_eq!(r, only_inheritdoc_violation(&func));
}

#[test]
fn only_inheritdoc_external_violation() {
    let (r, func) = check_function(
        r"
        contract Test {
            /// @inheritdoc Base
            /// @notice A test function
            function test() external {}
        }
        ",
        OnlyInheritdoc::check,
    );
    assert_eq!(r, only_inheritdoc_violation(&func));
}

#[test]
fn only_inheritdoc_inheritdoc_violation() {
    let (r, func) = check_function(
        r"
        contract Test {
            /// @inheritdoc Base
            /// @inheritdoc Base2
            function test() override {}
        }
        ",
        OnlyInheritdoc::check,
    );
    assert_eq!(r, only_inheritdoc_violation(&func));
}

// MissingInheritdoc and MissingNotice (variables)

#[test]
fn variable_missing_inheritdoc_pub_const_violation() {
    let (r, var) = check_variable(
        r#"
        contract Test {
            bytes32 public constant SOME_CONST = keccak256("SOME_CONST");
        }
        "#,
        VariableMissingInheritdoc::check,
    );
    assert_eq!(
        r,
        Some(Violation::new(
            VariableMissingInheritdoc::NAME,
            VariableMissingInheritdoc::DESCRIPTION,
            ViolationError::MissingComment(CommentTag::Inheritdoc),
            var.loc
        ))
    );
}

#[test]
fn variable_missing_inheritdoc_pub_state_no_violation() {
    let (r, _) = check_variable(
        r"
        contract Test {
            /// @inheritdoc Base
            State public state;
        }
        ",
        VariableMissingInheritdoc::check,
    );
    assert_eq!(r, None);
}

#[test]
fn variable_missing_inheritdoc_private_no_violation() {
    let (r, _) = check_variable(
        r"
        contract Test {
            State private state;
        }
        ",
        VariableMissingInheritdoc::check,
    );
    assert_eq!(r, None);
}

#[test]
fn variable_missing_inheritdoc_internal_no_violation() {
    let (r, _) = check_variable(
        r"
        contract Test {
            State internal state;
        }
        ",
        VariableMissingInheritdoc::check,
    );
    assert_eq!(r, None);
}

#[test]
fn variable_missing_inheritdoc_interface_no_violation() {
    let (r, _) = check_variable(
        r"
        interface Test {
            State public state;
        }
        ",
        VariableMissingInheritdoc::check,
    );
    assert_eq!(r, None);
}

#[test]
fn variable_missing_inheritdoc_library_no_violation() {
    let (r, _) = check_variable(
        r"
        library Test {
            State public state;
        }
        ",
        VariableMissingInheritdoc::check,
    );
    assert_eq!(r, None);
}

#[test]
fn variable_missing_inheritdoc_abstract_public_violation() {
    let (r, var) = check_variable(
        r"
        abstract contract Test {
            State public state;
        }
        ",
        VariableMissingInheritdoc::check,
    );
    assert_eq!(
        r,
        Some(Violation::new(
            VariableMissingInheritdoc::NAME,
            VariableMissingInheritdoc::DESCRIPTION,
            ViolationError::MissingComment(CommentTag::Inheritdoc),
            var.loc
        ))
    );
}

#[test]
fn variable_missing_notice_empty_violation() {
    let (r, var) = check_variable(
        r#"
        contract Test {
            bytes32 public constant SOME_CONST = keccak256("SOME_CONST");
        }
        "#,
        VariableMissingNotice::check,
    );
    assert_eq!(
        r,
        Some(Violation::new(
            VariableMissingNotice::NAME,
            VariableMissingNotice::DESCRIPTION,
            ViolationError::MissingComment(CommentTag::Notice),
            var.loc
        ))
    );
}

#[test]
fn variable_missing_notice_no_tag_no_violation() {
    let (r, _) = check_variable(
        r#"
        contract Test {
            /// Some variable
            bytes32 public constant SOME_CONST = keccak256("SOME_CONST");
        }
        "#,
        VariableMissingNotice::check,
    );
    assert_eq!(r, None);
}

#[test]
fn variable_missing_notice_inheritdoc_no_violation() {
    let (r, _) = check_variable(
        r#"
        contract Test {
            /// @inheritdoc something
            bytes32 public constant SOME_CONST = keccak256("SOME_CONST");
        }
        "#,
        VariableMissingNotice::check,
    );
    assert_eq!(r, None);
}
