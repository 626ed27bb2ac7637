use mutation_testing::codegen::{prepare_mutation, PreparedMutation};
use mutation_testing::expr::{ast_equals, BinOp, Expr, ExprKind, LitValue, Member, UnOp};
use mutation_testing::matcher::{
    collect_function_names, find_expression_in_function, FnItem, MatchedSite, SourceFile,
};
use mutation_testing::mutator::Mutator;
use mutation_testing::runner::EntryCheck;
use mutation_testing::{validate_mutations, Config, MutationConfig, MutationError, Settings};

fn node(kind: ExprKind, children: Vec<Expr>, line: usize, column: usize) -> Expr {
    Expr { kind, children, line, column, id: 0 }
}

fn ident(name: &str, line: usize, column: usize) -> Expr {
    node(ExprKind::Path(vec![name.to_string()]), vec![], line, column)
}

fn num(digits: &str) -> Expr {
    node(ExprKind::Lit(LitValue::Int(digits.to_string())), vec![], 1, 1)
}

fn boolean(v: bool) -> Expr {
    node(ExprKind::Lit(LitValue::Bool(v)), vec![], 1, 1)
}

fn bin(op: BinOp, l: Expr, r: Expr) -> Expr {
    let (line, column) = (l.line, l.column);
    node(ExprKind::Binary(op), vec![l, r], line, column)
}

fn paren(e: Expr) -> Expr {
    let (line, column) = (e.line, e.column);
    node(ExprKind::Paren, vec![e], line, column)
}

/// `a <op> b` at the given place, as a parser would give it.
fn ab(op: BinOp, line: usize, column: usize) -> Expr {
    bin(op, ident("a", line, column), ident("b", line, column + 4))
}

/// Numbers every node in pre-order, from `next`.
fn number(e: &mut Expr, next: &mut usize) {
    e.id = *next;
    *next += 1;
    for c in e.children.iter_mut() {
        number(c, next);
    }
}

fn file(functions: Vec<(&str, Vec<Expr>)>) -> SourceFile {
    let mut next = 0;
    SourceFile {
        functions: functions
            .into_iter()
            .map(|(name, mut body)| {
                for e in body.iter_mut() {
                    number(e, &mut next);
                }
                FnItem { name: name.to_string(), body }
            })
            .collect(),
    }
}

/// fn add(a: i32, b: i32) -> i32 { a + b }
fn add_file() -> SourceFile {
    file(vec![("add", vec![ab(BinOp::Add, 3, 5)])])
}

fn mutation(function: &str, original: &str, replacement: &str) -> MutationConfig {
    MutationConfig {
        file: "test.rs".to_string(),
        function: function.to_string(),
        original: original.to_string(),
        replacement: replacement.to_string(),
        id: "test".to_string(),
    }
}

fn is_ab(e: &Expr, op: BinOp) -> bool {
    ast_equals(e, &ab(op, 1, 1))
}

#[test]
fn test_binary_expr_equals() {
    assert!(ast_equals(&ab(BinOp::Add, 1, 1), &ab(BinOp::Add, 1, 1)));
    // "a+b" and "a + b": only the positions differ
    assert!(ast_equals(&bin(BinOp::Add, ident("a", 1, 1), ident("b", 1, 3)), &ab(BinOp::Add, 1, 1)));
    assert!(!ast_equals(&ab(BinOp::Add, 1, 1), &ab(BinOp::Sub, 1, 1)));
    let xy = bin(BinOp::Add, ident("x", 1, 1), ident("y", 1, 5));
    assert!(!ast_equals(&ab(BinOp::Add, 1, 1), &xy));
}

#[test]
fn test_literal_equals() {
    assert!(ast_equals(&num("42"), &num("42")));
    assert!(!ast_equals(&num("42"), &num("43")));
    assert!(ast_equals(&boolean(true), &boolean(true)));
    assert!(!ast_equals(&boolean(true), &boolean(false)));
}

#[test]
fn test_comparison_equals() {
    assert!(ast_equals(&ab(BinOp::Ge, 1, 1), &ab(BinOp::Ge, 1, 1)));
    assert!(!ast_equals(&ab(BinOp::Ge, 1, 1), &ab(BinOp::Gt, 1, 1)));
}

#[test]
fn parentheses_are_ignored_both_ways() {
    let wrapped = paren(ab(BinOp::Add, 1, 2));
    assert!(ast_equals(&wrapped, &ab(BinOp::Add, 1, 1)));
    assert!(ast_equals(&ab(BinOp::Add, 1, 1), &wrapped));
    assert!(ast_equals(&paren(paren(ab(BinOp::Add, 1, 3))), &ab(BinOp::Add, 1, 1)));
}

#[test]
fn conditional_compares_condition_only() {
    let a = node(ExprKind::If, vec![ident("c", 1, 4), num("1")], 1, 1);
    let b = node(ExprKind::If, vec![ident("c", 1, 4), num("2"), num("3")], 1, 1);
    let c = node(ExprKind::If, vec![ident("d", 1, 4), num("1")], 1, 1);
    assert!(ast_equals(&a, &b));
    assert!(!ast_equals(&a, &c));
}

#[test]
fn block_compares_statement_count_only() {
    let a = node(ExprKind::Block(2), vec![num("1"), num("2")], 1, 1);
    let b = node(ExprKind::Block(2), vec![ident("x", 1, 1)], 1, 1);
    let c = node(ExprKind::Block(3), vec![num("1"), num("2")], 1, 1);
    assert!(ast_equals(&a, &b));
    assert!(!ast_equals(&a, &c));
}

#[test]
fn other_kinds_compare_structurally() {
    let call = |name: &str, args: Vec<Expr>| {
        let mut c = vec![ident(name, 1, 1)];
        c.extend(args);
        node(ExprKind::Call, c, 1, 1)
    };
    assert!(ast_equals(&call("f", vec![num("1")]), &call("f", vec![num("1")])));
    assert!(!ast_equals(&call("f", vec![num("1")]), &call("f", vec![num("1"), num("2")])));
    let field = |m: Member| node(ExprKind::Field(m), vec![ident("s", 1, 1)], 1, 1);
    assert!(ast_equals(&field(Member::Unnamed(0)), &field(Member::Unnamed(0))));
    assert!(!ast_equals(&field(Member::Unnamed(0)), &field(Member::Named("x".to_string()))));
    let reference = |m: bool| node(ExprKind::Reference(m), vec![ident("x", 1, 1)], 1, 1);
    assert!(!ast_equals(&reference(true), &reference(false)));
    let neg = node(ExprKind::Unary(UnOp::Neg), vec![ident("x", 1, 1)], 1, 1);
    let not = node(ExprKind::Unary(UnOp::Not), vec![ident("x", 1, 1)], 1, 1);
    assert!(!ast_equals(&neg, &not));
    let range = |s: bool, e: bool| {
        let mut c = vec![];
        if s {
            c.push(num("0"));
        }
        if e {
            c.push(num("0"));
        }
        node(ExprKind::Range { has_start: s, has_end: e, closed: false }, c, 1, 1)
    };
    assert!(ast_equals(&range(true, false), &range(true, false)));
    assert!(!ast_equals(&range(true, false), &range(false, true)));
    let other = node(ExprKind::Other, vec![], 1, 1);
    assert!(!ast_equals(&other, &node(ExprKind::Other, vec![], 1, 1)));
    let verbatim = node(ExprKind::Lit(LitValue::Verbatim), vec![], 1, 1);
    assert!(!ast_equals(&verbatim, &node(ExprKind::Lit(LitValue::Verbatim), vec![], 1, 1)));
}

#[test]
fn test_find_expression() {
    // fn add(a, b) { a + b }  fn other() { let x = 1 + 2; }
    let ast = file(vec![
        ("add", vec![ab(BinOp::Add, 3, 17)]),
        ("other", vec![bin(BinOp::Add, num("1"), num("2"))]),
    ]);
    let target = ab(BinOp::Add, 1, 1);
    let matches = find_expression_in_function(&ast, "add", &target);
    assert_eq!(matches.len(), 1);
    assert_eq!(matches[0].line, 3);
    assert_eq!(matches[0].column, 17);
    let matches = find_expression_in_function(&ast, "other", &target);
    assert_eq!(matches.len(), 0);
}

#[test]
fn find_numbers_occurrences_in_source_order() {
    // fn calc(a, b) { let x = a + b; let y = (a + b) * (a + b); }
    let body = vec![
        ab(BinOp::Add, 2, 13),
        bin(BinOp::Mul, paren(ab(BinOp::Add, 3, 14)), paren(ab(BinOp::Add, 3, 24))),
    ];
    let ast = file(vec![("calc", body)]);
    let matches = find_expression_in_function(&ast, "calc", &ab(BinOp::Add, 1, 1));
    // each parenthesised sum matches both as itself and as its inner sum
    assert_eq!(matches.len(), 5);
    for (k, m) in matches.iter().enumerate() {
        assert_eq!(m.match_index, k);
    }
    assert_eq!((matches[0].line, matches[0].column), (2, 13));
    assert_eq!((matches[1].line, matches[1].column), (3, 14));
    assert_eq!((matches[4].line, matches[4].column), (3, 24));
}

#[test]
fn find_searches_every_function_of_that_name() {
    let ast = file(vec![
        ("run", vec![ab(BinOp::Add, 2, 5)]),
        ("other", vec![ab(BinOp::Add, 5, 5)]),
        ("run", vec![ab(BinOp::Add, 9, 9)]),
    ]);
    let matches = find_expression_in_function(&ast, "run", &ab(BinOp::Add, 1, 1));
    assert_eq!(matches.len(), 2);
    assert_eq!(matches[0].line, 2);
    assert_eq!(matches[1].line, 9);
}

#[test]
fn test_collect_functions() {
    let ast = file(vec![("foo", vec![]), ("bar", vec![]), ("baz", vec![])]);
    let functions = collect_function_names(&ast);
    assert!(functions.contains(&"foo".to_string()));
    assert!(functions.contains(&"bar".to_string()));
    assert!(functions.contains(&"baz".to_string()));
}

#[test]
fn test_apply_mutation() {
    let mut ast = add_file();
    let target = ab(BinOp::Add, 1, 1);
    let matches = find_expression_in_function(&ast, "add", &target);
    assert_eq!(matches.len(), 1);
    Mutator::apply(&mut ast, "add", &target, ab(BinOp::Sub, 1, 1), &matches[0]).unwrap();
    assert!(is_ab(&ast.functions[0].body[0], BinOp::Sub));
    assert_eq!(find_expression_in_function(&ast, "add", &target).len(), 0);
}

#[test]
fn test_apply_specific_match() {
    // fn calc(a, b) { let x = a + b; let y = a + b; x * y }
    let body = vec![
        ab(BinOp::Add, 3, 13),
        ab(BinOp::Add, 4, 13),
        bin(BinOp::Mul, ident("x", 5, 5), ident("y", 5, 9)),
    ];
    let mut ast = file(vec![("calc", body)]);
    let target = ab(BinOp::Add, 1, 1);
    let matches = find_expression_in_function(&ast, "calc", &target);
    assert_eq!(matches.len(), 2);
    Mutator::apply(&mut ast, "calc", &target, ab(BinOp::Sub, 1, 1), &matches[0]).unwrap();
    assert!(is_ab(&ast.functions[0].body[0], BinOp::Sub));
    assert!(is_ab(&ast.functions[0].body[1], BinOp::Add));
    assert_eq!(ast.functions[0].body[1].line, 4);
}

#[test]
fn apply_second_occurrence_leaves_first() {
    let body = vec![ab(BinOp::Add, 3, 13), ab(BinOp::Add, 4, 13)];
    let mut ast = file(vec![("calc", body)]);
    let target = ab(BinOp::Add, 1, 1);
    let matches = find_expression_in_function(&ast, "calc", &target);
    Mutator::apply(&mut ast, "calc", &target, ab(BinOp::Sub, 1, 1), &matches[1]).unwrap();
    assert!(is_ab(&ast.functions[0].body[0], BinOp::Add));
    assert_eq!(ast.functions[0].body[0].line, 3);
    assert!(is_ab(&ast.functions[0].body[1], BinOp::Sub));
}

#[test]
fn apply_does_not_recurse_into_replacement() {
    // pattern a + b, replacement a + b - 0
    let mut ast = add_file();
    let target = ab(BinOp::Add, 1, 1);
    let replacement = bin(BinOp::Sub, ab(BinOp::Add, 1, 1), num("0"));
    let matches = find_expression_in_function(&ast, "add", &target);
    Mutator::apply(&mut ast, "add", &target, replacement, &matches[0]).unwrap();
    let body = &ast.functions[0].body[0];
    assert!(matches!(body.kind, ExprKind::Binary(BinOp::Sub)));
    assert!(is_ab(&body.children[0], BinOp::Add));
    assert_eq!(find_expression_in_function(&ast, "add", &target).len(), 1);
}

#[test]
fn apply_past_last_occurrence_fails() {
    let mut ast = add_file();
    let target = ab(BinOp::Add, 1, 1);
    let site = MatchedSite { line: 3, column: 5, match_index: 1, node: 0 };
    let r = Mutator::apply(&mut ast, "add", &target, ab(BinOp::Sub, 1, 1), &site);
    assert!(matches!(r, Err(MutationError::FailedToApply { .. })));
    assert!(is_ab(&ast.functions[0].body[0], BinOp::Add));
}

fn prepare(
    ast: SourceFile,
    m: &MutationConfig,
    original: Expr,
    replacement: Expr,
) -> Result<PreparedMutation, MutationError> {
    prepare_mutation(Ok(ast), Ok(original), Ok(replacement), m)
}

#[test]
fn test_prepare_mutation() {
    let m = mutation("add", "a + b", "a - b");
    let p = prepare(add_file(), &m, ab(BinOp::Add, 1, 1), ab(BinOp::Sub, 1, 1)).unwrap();
    assert!(is_ab(&p.mutated.functions[0].body[0], BinOp::Sub));
    assert_eq!(p.site.line, 3);
    assert_eq!(p.site.match_index, 0);
}

#[test]
fn test_function_not_found() {
    let m = mutation("subtract", "a + b", "a - b");
    let r = prepare(add_file(), &m, ab(BinOp::Add, 1, 1), ab(BinOp::Sub, 1, 1));
    match r {
        Err(MutationError::FunctionNotFound { function, available_functions, .. }) => {
            assert_eq!(function, "subtract");
            assert_eq!(available_functions, vec!["add".to_string()]);
        }
        _ => panic!("expected FunctionNotFound"),
    }
}

#[test]
fn test_no_match() {
    let m = mutation("add", "x + y", "x - y");
    let xy = bin(BinOp::Add, ident("x", 1, 1), ident("y", 1, 5));
    let r = prepare(add_file(), &m, xy, ab(BinOp::Sub, 1, 1));
    assert!(matches!(r, Err(MutationError::NoMatch { .. })));
}

#[test]
fn two_occurrences_are_ambiguous() {
    let body = vec![ab(BinOp::Add, 3, 13), ab(BinOp::Add, 4, 17)];
    let ast = file(vec![("calc", body)]);
    let m = mutation("calc", "a + b", "a - b");
    match prepare(ast, &m, ab(BinOp::Add, 1, 1), ab(BinOp::Sub, 1, 1)) {
        Err(MutationError::AmbiguousMatch { match_count, locations, .. }) => {
            assert_eq!(match_count, 2);
            assert_eq!((locations[0].line, locations[0].column), (3, 13));
            assert_eq!((locations[1].line, locations[1].column), (4, 17));
        }
        _ => panic!("expected AmbiguousMatch"),
    }
}

#[test]
fn parse_failures_come_in_order() {
    let m = mutation("add", "a +", "a -");
    let r = prepare_mutation(Err("bad file".to_string()), Err("e1".to_string()), Err("e2".to_string()), &m);
    assert!(matches!(r, Err(MutationError::ParseError { .. })));
    let r = prepare_mutation(Ok(add_file()), Err("e1".to_string()), Err("e2".to_string()), &m);
    match r {
        Err(MutationError::InvalidOriginal { code, parse_error }) => {
            assert_eq!(code, "a +");
            assert_eq!(parse_error, "e1");
        }
        _ => panic!("expected InvalidOriginal"),
    }
    let r = prepare_mutation(Ok(add_file()), Ok(ab(BinOp::Add, 1, 1)), Err("e2".to_string()), &m);
    assert!(matches!(r, Err(MutationError::InvalidReplacement { .. })));
}

#[test]
fn missing_function_lists_every_declared_name() {
    let ast = file(vec![("foo", vec![]), ("bar", vec![]), ("baz", vec![ab(BinOp::Add, 7, 5)])]);
    let m = mutation("qux", "a + b", "a - b");
    match prepare(ast, &m, ab(BinOp::Add, 1, 1), ab(BinOp::Sub, 1, 1)) {
        Err(MutationError::FunctionNotFound { file, available_functions, .. }) => {
            assert_eq!(file, "test.rs");
            assert_eq!(available_functions, vec!["foo", "bar", "baz"]);
        }
        _ => panic!("expected FunctionNotFound"),
    }
}

#[test]
fn validation_reports_each_entry() {
    let config = Config {
        version: "1.0".to_string(),
        settings: Settings { timeout: 30 },
        mutations: vec![
            mutation("add", "a + b", "a - b"),
            mutation("add", "a + b", "a - b"),
            mutation("add", "a + b", "a - b"),
            mutation("add", "x + y", "x - y"),
        ],
    };
    let xy = bin(BinOp::Add, ident("x", 1, 1), ident("y", 1, 5));
    let checks = vec![
        EntryCheck::Missing,
        EntryCheck::Unreadable("permission denied".to_string()),
        EntryCheck::Parsed {
            file: Ok(add_file()),
            original: Ok(ab(BinOp::Add, 1, 1)),
            replacement: Ok(ab(BinOp::Sub, 1, 1)),
        },
        EntryCheck::Parsed { file: Ok(add_file()), original: Ok(xy), replacement: Ok(ab(BinOp::Sub, 1, 1)) },
    ];
    let r = validate_mutations(&config, checks);
    assert_eq!(r.len(), 4);
    assert!(matches!(&r[0], Err(MutationError::FileNotFound { file }) if file == "test.rs"));
    assert!(matches!(&r[1], Err(MutationError::FileReadError { error, .. }) if error == "permission denied"));
    assert!(r[2].is_ok());
    assert!(matches!(&r[3], Err(MutationError::NoMatch { .. })));
}

#[test]
fn add_scenario_mutates_the_single_sum() {
    // source defines add(a, b) -> a + b; the catalogue asks for a + b -> a - b
    let ast = add_file();
    let target = ab(BinOp::Add, 1, 1);
    assert_eq!(find_expression_in_function(&ast, "add", &target).len(), 1);
    let m = mutation("add", "a + b", "a - b");
    let p = prepare(ast, &m, target, ab(BinOp::Sub, 1, 1)).unwrap();
    let body = &p.mutated.functions[0].body;
    assert_eq!(body.len(), 1);
    assert!(is_ab(&body[0], BinOp::Sub));
    assert!(!is_ab(&body[0], BinOp::Add));
}
