use natspec_lint::comments::{CommentTag, Comments, CommentsRef, Natspec};
use natspec_lint::lines::LineLookup;
use natspec_lint::directives::{disable_next_line_directives, filter_disabled, DisabledLines};
use natspec_lint::linter::{lint, locate, LintError};
use natspec_lint::solang::parse_solidity;
use natspec_lint::visitor::{Visitable, Visitor};
use natspec_lint::model::{
    EnumDef, ErrorDef, EventDef, FunctionDef, Span, StructDef, TypeDef, VariableDef,
};
use natspec_lint::parser::{Parser, VisitError};
use natspec_lint::source::{
    doc_readable_check, CommentKind, ContractMember, RawComment, SourceItem, SourceUnit,
};
use natspec_lint::rules::contracts::missing_title::MissingTitle;
use natspec_lint::rules::functions::missing_params::MissingParams;
use natspec_lint::ruleset::{all_rules, default_rules, RuleKind};
use natspec_lint::text::{
    first_word_str, is_whitespace, split_once_space_str, starts_with, text_eq, trim_end_str,
    trim_start_str, trim_str,
};
use natspec_lint::violation::{Violation, ViolationError};

fn comment(tag: CommentTag, value: &str) -> Natspec {
    Natspec::new(tag, value.to_string())
}

// Text helpers

#[test]
fn text_trims_whitespace() {
    assert_eq!(trim_start_str("  \t a b "), "a b ");
    assert_eq!(trim_end_str("  a b \n"), "  a b");
    assert_eq!(trim_str("\u{a0} a b \u{3000}"), "a b");
    assert_eq!(trim_str("   "), "");
}

#[test]
fn text_splits_at_first_space() {
    assert_eq!(split_once_space_str("a b c"), Some(("a", "b c")));
    assert_eq!(split_once_space_str(" a"), Some(("", "a")));
    assert_eq!(split_once_space_str("a\tb"), None);
}

#[test]
fn text_first_word() {
    assert_eq!(first_word_str("  Base more"), Some("Base"));
    assert_eq!(first_word_str("Base\tmore"), Some("Base"));
    assert_eq!(first_word_str(" \n "), None);
    assert_eq!(first_word_str(""), None);
}

#[test]
fn text_prefix_and_equality() {
    assert!(starts_with("custom:variant", "custom:"));
    assert!(!starts_with("custom", "custom:"));
    assert!(text_eq("notice", "notice"));
    assert!(!text_eq("notice", "notices"));
    assert!(is_whitespace('\u{2028}'));
    assert!(!is_whitespace('x'));
}

// Comment tags

#[test]
fn comment_tag_from_str_known_tags() {
    assert_eq!(CommentTag::from_str("title"), Some(CommentTag::Title));
    assert_eq!(CommentTag::from_str("author"), Some(CommentTag::Author));
    assert_eq!(CommentTag::from_str(" notice "), Some(CommentTag::Notice));
    assert_eq!(CommentTag::from_str("dev"), Some(CommentTag::Dev));
    assert_eq!(CommentTag::from_str("param"), Some(CommentTag::Param));
    assert_eq!(CommentTag::from_str("return"), Some(CommentTag::Return));
    assert_eq!(CommentTag::from_str("inheritdoc"), Some(CommentTag::Inheritdoc));
}

#[test]
fn comment_tag_from_str_custom_tags() {
    assert_eq!(CommentTag::from_str("custom:param"), Some(CommentTag::Param));
    assert_eq!(CommentTag::from_str("custom:variant"), Some(CommentTag::variant()));
    assert_eq!(
        CommentTag::from_str("custom:custom:note"),
        Some(CommentTag::Custom("note".to_string()))
    );
    assert_eq!(CommentTag::from_str("custom: x "), Some(CommentTag::Custom("x".to_string())));
}

#[test]
fn comment_tag_from_str_unknown_tag() {
    assert_eq!(CommentTag::from_str("notes"), None);
    assert_eq!(CommentTag::from_str(""), None);
    assert_eq!(CommentTag::from_str("Title"), None);
}

#[test]
fn comment_tag_same_and_duplicate() {
    assert!(CommentTag::Notice.same(&CommentTag::Notice));
    assert!(!CommentTag::Notice.same(&CommentTag::Dev));
    assert!(CommentTag::variant().same(&CommentTag::Custom("variant".to_string())));
    assert!(!CommentTag::variant().same(&CommentTag::Custom("other".to_string())));
    let t = CommentTag::Custom("x".to_string());
    assert_eq!(t.duplicate(), t);
}

#[test]
fn natspec_from_doc_comment() {
    assert_eq!(
        Natspec::from_doc_comment("dev", "text".to_string()),
        Some(comment(CommentTag::Dev, "text"))
    );
    assert_eq!(Natspec::from_doc_comment("foo", "text".to_string()), None);
}

#[test]
fn natspec_split_first_word() {
    let c = comment(CommentTag::Param, "  a the first one");
    assert_eq!(c.split_first_word(), Some(("a", "the first one")));
    let c = comment(CommentTag::Param, "single");
    assert_eq!(c.split_first_word(), None);
}

#[test]
fn comments_include_tag_keeps_order() {
    let comments = Comments(vec![
        comment(CommentTag::Param, "a first"),
        comment(CommentTag::Notice, "note"),
        comment(CommentTag::Param, "b second"),
    ]);
    let all = CommentsRef::from(&comments);
    assert_eq!(all.len(), 3);
    assert!(!all.is_empty());
    let params = all.include_tag(CommentTag::Param);
    assert_eq!(params.len(), 2);
    assert_eq!(params.get(0).value, "a first");
    assert_eq!(params.get(1).value, "b second");
    assert!(all.include_tag(CommentTag::Dev).is_empty());
}

#[test]
fn comments_find_inheritdoc_base() {
    let comments = Comments(vec![
        comment(CommentTag::Notice, "note"),
        comment(CommentTag::Inheritdoc, " Base more"),
        comment(CommentTag::Inheritdoc, "Other"),
    ]);
    assert_eq!(CommentsRef::from(&comments).find_inheritdoc_base(), Some("Base"));
    let none = Comments(vec![comment(CommentTag::Notice, "Base")]);
    assert_eq!(CommentsRef::from(&none).find_inheritdoc_base(), None);
    let empty = Comments(vec![comment(CommentTag::Inheritdoc, "  ")]);
    assert_eq!(CommentsRef::from(&empty).find_inheritdoc_base(), None);
}

// Rule sets

#[test]
fn all_rules_holds_each_rule_once() {
    let rules = all_rules();
    assert_eq!(rules.len(), 28);
    for (i, a) in rules.iter().enumerate() {
        for b in rules.iter().skip(i + 1) {
            assert_ne!(a, b);
        }
    }
}

#[test]
fn default_rules_leave_out_four() {
    let rules = default_rules();
    assert_eq!(rules.len(), 24);
    for off in [
        RuleKind::EnumMissingTitle,
        RuleKind::EnumMissingVariant,
        RuleKind::FunctionOnlyInheritdoc,
        RuleKind::StructMissingTitle,
    ] {
        assert!(!rules.contains(&off));
    }
    for r in all_rules() {
        assert!(rules.contains(&r) || matches!(
            r,
            RuleKind::EnumMissingTitle
                | RuleKind::EnumMissingVariant
                | RuleKind::FunctionOnlyInheritdoc
                | RuleKind::StructMissingTitle
        ));
    }
}

#[test]
fn rule_kind_names() {
    assert_eq!(RuleKind::ContractMissingTitle.name(), "MissingTitle");
    assert_eq!(RuleKind::FunctionMissingParams.name(), "MissingParams");
    assert_eq!(RuleKind::VariableTooManyInheritdoc.name(), "TooManyInheritdoc");
}

// Line lookup

#[test]
fn line_lookup_counts_newlines() {
    let text = "a\nb\n\nc";
    let lookup = LineLookup::new(text);
    assert_eq!(lookup.len(), 6);
    assert_eq!(lookup.line(0), 1);
    assert_eq!(lookup.line(1), 1);
    assert_eq!(lookup.line(2), 2);
    assert_eq!(lookup.line(4), 3);
    assert_eq!(lookup.line(5), 4);
    assert_eq!(lookup.line(6), 4);
}

// Doc comment readability

fn raw(kind: CommentKind, text: &str) -> RawComment {
    RawComment { kind, loc: Span::File(0, 10, 10 + text.len()), text: text.to_string() }
}

#[test]
fn doc_readable_line_comments() {
    assert!(doc_readable_check(&raw(CommentKind::DocLine, "/// @notice héllo")));
    assert!(doc_readable_check(&raw(CommentKind::DocLine, "/// no tag at all é")));
    assert!(doc_readable_check(&raw(CommentKind::DocLine, "/// @ é")));
    assert!(doc_readable_check(&raw(CommentKind::DocLine, "/// @tägs")));
    assert!(doc_readable_check(&raw(CommentKind::DocLine, "/// written by a@é")));
    assert!(!doc_readable_check(&raw(CommentKind::DocLine, "/// @noticé")));
    assert!(!doc_readable_check(&raw(CommentKind::DocLine, "///@é")));
    assert!(!doc_readable_check(&raw(CommentKind::DocLine, "// @notice")));
}

#[test]
fn doc_readable_block_comments() {
    assert!(doc_readable_check(&raw(CommentKind::DocBlock, "/** @notice x */")));
    assert!(doc_readable_check(&raw(CommentKind::DocBlock, "/** x @é */")));
    assert!(doc_readable_check(&raw(CommentKind::DocBlock, "/**\n * @title T\n * by a@é x\n */")));
    assert!(!doc_readable_check(&raw(CommentKind::DocBlock, "/**\n * @title T\n * @é x\n */")));
    assert!(!doc_readable_check(&raw(CommentKind::DocBlock, "/** x\n * @tagé\n */")));
    assert!(!doc_readable_check(&raw(CommentKind::DocBlock, "/** @é*/")));
    assert!(!doc_readable_check(&raw(CommentKind::DocBlock, "/**/")));
    assert!(!doc_readable_check(&raw(CommentKind::DocBlock, "/* @x */")));
}

#[test]
fn doc_readable_other_comments_and_locations() {
    assert!(doc_readable_check(&raw(CommentKind::Line, "// @é")));
    assert!(doc_readable_check(&raw(CommentKind::Block, "/* @é */")));
    let unplaced = RawComment { kind: CommentKind::DocLine, loc: Span::Implicit, text: "/// x".to_string() };
    assert!(!doc_readable_check(&unplaced));
    let far = RawComment { kind: CommentKind::DocLine, loc: Span::File(0, usize::MAX / 2, usize::MAX / 2), text: "/// x".to_string() };
    assert!(!doc_readable_check(&far));
}

// Linting whole sources

const UNDOCUMENTED: &str = "pragma solidity ^0.8.0;\n\ncontract Foo {\n    function bar(uint256 a) public {}\n}\n";

#[test]
fn lint_reports_missing_title_with_line() {
    let r = lint(UNDOCUMENTED, &vec![RuleKind::ContractMissingTitle]).unwrap();
    assert_eq!(r.len(), 1);
    let (v, line) = &r[0];
    assert_eq!(*line, 3);
    assert_eq!(v.rule_name, MissingTitle::NAME);
    assert_eq!(v.description, MissingTitle::DESCRIPTION);
    assert_eq!(v.error, ViolationError::MissingComment(CommentTag::Title));
    assert!(matches!(v.loc, Span::File(_, _, _)));
}

#[test]
fn lint_reports_function_rule_on_member() {
    let r = lint(UNDOCUMENTED, &vec![RuleKind::FunctionMissingParams]).unwrap();
    assert_eq!(r.len(), 1);
    let (v, line) = &r[0];
    assert_eq!(*line, 4);
    assert_eq!(v.rule_name, MissingParams::NAME);
    assert_eq!(v.error, ViolationError::MissingComment(CommentTag::Param));
}

#[test]
fn lint_orders_violations_by_item_then_rule() {
    let rules = vec![RuleKind::FunctionMissingParams, RuleKind::ContractMissingTitle];
    let r = lint(UNDOCUMENTED, &rules).unwrap();
    let found: Vec<(&str, usize)> = r.iter().map(|(v, l)| (v.rule_name, *l)).collect();
    assert_eq!(found, vec![("MissingTitle", 3), ("MissingParams", 4)]);
}

#[test]
fn lint_documented_source_passes() {
    let src = "/// @title Foo\n/// @notice A contract\ncontract Foo {\n    /// @notice Does it\n    /// @param a The value\n    function bar(uint256 a) public {}\n}\n";
    let rules = vec![
        RuleKind::ContractMissingTitle,
        RuleKind::FunctionMissingNotice,
        RuleKind::FunctionMissingParams,
    ];
    assert_eq!(lint(src, &rules), Ok(vec![]));
}

#[test]
fn lint_with_no_rules_reports_nothing() {
    assert_eq!(lint(UNDOCUMENTED, &vec![]), Ok(vec![]));
}

#[test]
fn lint_two_contracts_in_order() {
    let src = "contract A {}\n\ncontract B {}\n";
    let r = lint(src, &vec![RuleKind::ContractMissingTitle]).unwrap();
    let lines: Vec<usize> = r.iter().map(|(_, l)| *l).collect();
    assert_eq!(lines, vec![1, 3]);
}

#[test]
fn lint_rejects_invalid_source() {
    assert!(matches!(lint("contract {", &all_rules()), Err(LintError::Parse(_))));
}

#[test]
fn lint_rejects_unreadable_doc_comment() {
    let src = "/// @é\ncontract A {}\n";
    assert!(matches!(lint(src, &all_rules()), Err(LintError::DocComment(Span::File(0, 0, _)))));
    let src = "contract A {\n    /** @noticé */\n    function f() public {}\n}\n";
    assert!(matches!(lint(src, &all_rules()), Err(LintError::DocComment(_))));
}

#[test]
fn lint_reads_tags_that_only_look_unreadable() {
    let src = "/// @title A\n/// written by dev@exämple\n/// @tägs x\ncontract A {}\n";
    assert_eq!(lint(src, &vec![RuleKind::ContractMissingTitle]), Ok(vec![]));
}

#[test]
fn lint_ignores_doc_comments_that_document_nothing() {
    let src = "contract A {\n    function f() public {\n        /// @é\n    }\n}\n/// @é\n";
    assert_eq!(lint(src, &vec![RuleKind::FunctionMissingNotice]).unwrap().len(), 1);
}

#[test]
fn lint_comments_belong_to_the_next_item() {
    let src = "/// @title A\ncontract A {}\ncontract B {}\n";
    let r = lint(src, &vec![RuleKind::ContractMissingTitle]).unwrap();
    let lines: Vec<usize> = r.iter().map(|(_, l)| *l).collect();
    assert_eq!(lines, vec![3]);
}

// Laws on concrete values

#[test]
fn inheritdoc_exempts_function_from_notice_and_params() {
    let src = "contract Foo {\n    /// @inheritdoc Base\n    function bar(uint256 a) public returns (uint256 b) {}\n}\n";
    let rules = vec![
        RuleKind::FunctionMissingNotice,
        RuleKind::FunctionMissingParams,
        RuleKind::FunctionMissingReturn,
    ];
    assert_eq!(lint(src, &rules), Ok(vec![]));
}

#[test]
fn interface_members_need_no_inheritdoc() {
    let src = "interface Foo {\n    function bar() external;\n}\n";
    let rules = vec![RuleKind::FunctionMissingInheritdoc, RuleKind::VariableMissingInheritdoc];
    assert_eq!(lint(src, &rules), Ok(vec![]));
    let src = "contract Foo {\n    function bar() external {}\n}\n";
    let r = lint(src, &rules).unwrap();
    assert_eq!(r.len(), 1);
    assert_eq!(r[0].0.rule_name, "MissingInheritdoc");
}

#[test]
fn rule_reports_nothing_on_other_kinds() {
    let src = "contract Foo {\n    event E();\n    error Er();\n}\n";
    let rules = vec![RuleKind::FunctionMissingNotice, RuleKind::VariableMissingNotice];
    assert_eq!(lint(src, &rules), Ok(vec![]));
}

// Each kind of violation, and each failure

#[test]
fn lint_reports_unnamed_error_parameter() {
    let src = "/// @notice E\n/// @param x the value\nerror E(uint256);\n";
    let r = lint(src, &vec![RuleKind::ErrorMissingParam]).unwrap();
    assert_eq!(r.len(), 1);
    assert_eq!(r[0].0.rule_name, "MissingParam");
    assert_eq!(
        r[0].0.error,
        ViolationError::ParseError("Field name could not be parsed".to_string())
    );
    assert_eq!(r[0].1, 3);
}

#[test]
fn lint_reports_illegal_and_too_many_comments() {
    let src = "/// @title A\n/// @title B\n/// @param x\ncontract A {\n    /// @author me\n    error E();\n}\n";
    let rules = vec![
        RuleKind::ContractTooManyTitle,
        RuleKind::ContractNoParam,
        RuleKind::ErrorNoAuthor,
    ];
    let r = lint(src, &rules).unwrap();
    let errors: Vec<(ViolationError, usize)> = r.iter().map(|(v, l)| (v.error.clone(), *l)).collect();
    assert_eq!(
        errors,
        vec![
            (ViolationError::TooManyComments(CommentTag::Title), 4),
            (ViolationError::IllegalComment(CommentTag::Param), 4),
            (ViolationError::IllegalComment(CommentTag::Author), 6),
        ]
    );
}

#[test]
fn lint_reports_only_inheritdoc() {
    let src = "contract A {\n    /// @inheritdoc B\n    /// @notice x\n    function f() public {}\n}\n";
    let r = lint(src, &vec![RuleKind::FunctionOnlyInheritdoc]).unwrap();
    assert_eq!(r.len(), 1);
    assert_eq!(r[0].0.error, ViolationError::OnlyInheritdoc);
    assert_eq!(r[0].1, 4);
}

#[test]
fn locate_rejects_locations_outside_the_source() {
    let lookup = LineLookup::new("abc\ndef");
    let v = |loc| Violation::new(MissingTitle::NAME, MissingTitle::DESCRIPTION, ViolationError::OnlyInheritdoc, loc);
    let found = locate(vec![v(Span::File(0, 4, 5)), v(Span::File(0, 7, 7))], &lookup).unwrap();
    let lines: Vec<usize> = found.iter().map(|(_, l)| *l).collect();
    assert_eq!(lines, vec![2, 2]);
    assert_eq!(
        locate(vec![v(Span::File(0, 0, 1)), v(Span::Implicit)], &lookup),
        Err(LintError::Location(Span::Implicit))
    );
    assert_eq!(
        locate(vec![v(Span::File(0, 8, 9))], &lookup),
        Err(LintError::Location(Span::File(0, 8, 9)))
    );
}

#[test]
fn parser_rejects_unplaced_definitions_and_unreadable_docs() {
    let event = |loc| SourceItem::Event(EventDef { loc, name: None });
    let mut parser = Parser::new(vec![]);
    let unit = SourceUnit(vec![event(Span::File(0, 0, 5)), event(Span::Implicit)]);
    assert_eq!(parser.visit_source_unit(unit), Err(VisitError::Location(Span::Implicit)));

    let bad = RawComment { kind: CommentKind::DocLine, loc: Span::File(0, 0, 7), text: "/// @é".to_string() };
    let mut parser = Parser::new(vec![bad]);
    let unit = SourceUnit(vec![event(Span::File(0, 10, 20))]);
    assert_eq!(parser.visit_source_unit(unit), Err(VisitError::DocComment(Span::File(0, 0, 7))));

    let good = RawComment { kind: CommentKind::DocLine, loc: Span::File(0, 0, 14), text: "/// @notice hi".to_string() };
    let mut parser = Parser::new(vec![good]);
    let unit = SourceUnit(vec![event(Span::File(0, 15, 20)), SourceItem::Other]);
    assert_eq!(parser.visit_source_unit(unit), Ok(()));
    let items = parser.items();
    assert_eq!(items.len(), 1);
    assert_eq!(items[0].comments, Comments(vec![comment(CommentTag::Notice, "hi")]));
    assert!(items[0].children.is_empty());
}

// Lines switched off

#[test]
fn disabled_lines_lookup() {
    let d = DisabledLines {
        pairs: vec![(3, Some("MissingTitle".to_string())), (7, Some("NoAuthor".to_string())), (9, None)],
    };
    assert!(d.is_disabled(3, "MissingTitle"));
    assert!(!d.is_disabled(3, "NoAuthor"));
    assert!(!d.is_disabled(4, "MissingTitle"));
    assert!(d.is_disabled(7, "NoAuthor"));
    assert!(d.is_disabled(9, "Anything"));
    assert!(!DisabledLines { pairs: vec![] }.is_disabled(3, "MissingTitle"));
}

#[test]
fn directives_read_from_source() {
    let src = "contract A {}\n  // natspec-lint-disable-next-line MissingTitle, NoAuthor\nx\n//natspec-lint-disable-next-line\ny\n// natspec-lint-disable-next-lineX\n// other-disable-next-line MissingTitle\n/// natspec-lint-disable-next-line A\n";
    let d = disable_next_line_directives(src);
    assert_eq!(
        d.pairs,
        vec![(3, Some("MissingTitle".to_string())), (3, Some("NoAuthor".to_string())), (5, None)]
    );
}

#[test]
fn lint_drops_violations_that_directives_switch_off() {
    let rules = vec![RuleKind::ContractMissingTitle, RuleKind::FunctionMissingParams];
    let src = "pragma solidity ^0.8.0;\n// natspec-lint-disable-next-line MissingTitle\ncontract Foo {\n    function bar(uint256 a) public {}\n}\n";
    let r = lint(src, &rules).unwrap();
    let found: Vec<(&str, usize)> = r.iter().map(|(v, l)| (v.rule_name, *l)).collect();
    assert_eq!(found, vec![("MissingParams", 4)]);

    let src = "pragma solidity ^0.8.0;\ncontract Foo {\n    // natspec-lint-disable-next-line\n    function bar(uint256 a) public {}\n}\n";
    let r = lint(src, &rules).unwrap();
    let found: Vec<(&str, usize)> = r.iter().map(|(v, l)| (v.rule_name, *l)).collect();
    assert_eq!(found, vec![("MissingTitle", 2)]);

    let src = "// natspec-lint-disable-next-line NoAuthor\ncontract Foo {}\n";
    assert_eq!(lint(src, &rules).unwrap().len(), 1);
    assert_eq!(lint(UNDOCUMENTED, &rules).unwrap().len(), 2);
}

#[test]
fn filter_disabled_keeps_order() {
    let v = |name| Violation::new(name, "d", ViolationError::OnlyInheritdoc, Span::File(0, 0, 1));
    let d = DisabledLines { pairs: vec![(2, Some("B".to_string()))] };
    let kept = filter_disabled(vec![(v("A"), 2), (v("B"), 2), (v("B"), 3), (v("C"), 1)], &d);
    let found: Vec<(&str, usize)> = kept.iter().map(|(v, l)| (v.rule_name, *l)).collect();
    assert_eq!(found, vec![("A", 2), ("B", 3), ("C", 1)]);
}

// More laws on concrete values

#[test]
fn more_rules_only_add_violations() {
    let a = vec![RuleKind::FunctionMissingParams];
    let ab = vec![RuleKind::FunctionMissingParams, RuleKind::ContractMissingTitle, RuleKind::FunctionMissingNotice];
    let x = lint(UNDOCUMENTED, &a).unwrap();
    let y = lint(UNDOCUMENTED, &ab).unwrap();
    let mut j = 0;
    for p in &x {
        while j < y.len() && &y[j] != p {
            j += 1;
        }
        assert!(j < y.len());
        j += 1;
    }
    assert_eq!(y.len(), 3);
}

#[test]
fn name_rules_ignore_comment_order() {
    let one = "contract C {\n    /// @notice E\n    /// @param a first\n    /// @param b second\n    error E(uint256 a, uint256 c);\n}\n";
    let two = "contract C {\n    /// @param b second\n    /// @notice E\n    /// @param a first\n    error E(uint256 a, uint256 c);\n}\n";
    let rules = vec![RuleKind::ErrorMissingParam];
    let r1 = lint(one, &rules).unwrap();
    let r2 = lint(two, &rules).unwrap();
    assert_eq!(r1.len(), 1);
    assert_eq!(r1[0].0, r2[0].0);
    assert_eq!(
        r1[0].0.error,
        ViolationError::MissingCommentFor(CommentTag::Param, "c".to_string())
    );
}

// Visiting

struct CountFunctions(usize);

impl Visitor for CountFunctions {
    type Error = ();
    fn source_unit_visited(_: Self, _: Self, _: SourceUnit, _: SourceUnit, _: Result<(), ()>) -> bool {
        true
    }
    fn function_visited(_: Self, _: Self, _: FunctionDef, _: FunctionDef, _: Result<(), ()>) -> bool {
        true
    }
    fn lemma_enum_passes_over(_: Self, _: EnumDef) {}
    fn lemma_var_definition_passes_over(_: Self, _: VariableDef) {}
    fn lemma_function_passes_over(_: Self, _: FunctionDef) {}
    fn lemma_struct_passes_over(_: Self, _: StructDef) {}
    fn lemma_event_passes_over(_: Self, _: EventDef) {}
    fn lemma_error_passes_over(_: Self, _: ErrorDef) {}
    fn lemma_type_definition_passes_over(_: Self, _: TypeDef) {}
    fn visit_source_unit(&mut self, source_unit: &mut SourceUnit) -> Result<(), ()> {
        for part in source_unit.0.iter_mut() {
            part.visit(self)?;
        }
        Ok(())
    }
    fn visit_function(&mut self, _func: &mut FunctionDef) -> Result<(), ()> {
        self.0 += 1;
        Ok(())
    }
}

#[test]
fn visitor_reaches_functions_and_passes_over_the_rest() {
    let (mut unit, _) = parse_solidity("function f() {}\ncontract A { function g() public {} }\nfunction h() {}\n").unwrap();
    let mut counter = CountFunctions(0);
    assert_eq!(unit.visit(&mut counter), Ok(()));
    assert_eq!(counter.0, 2);
    let mut other = ContractMember::Other;
    assert_eq!(other.visit(&mut counter), Ok(()));
    let mut event = ContractMember::Event(EventDef { loc: Span::Implicit, name: None });
    assert_eq!(event.visit(&mut counter), Ok(()));
    assert_eq!(counter.0, 2);
}
