//! Literals that leave a function.
use alice_engine::guardian::evaluate::SymValue;
use alice_engine::guardian::leaks::{
    analyze_file, collect_fn_return_value, collect_returns, report, summary, Decl,
};
use alice_engine::guardian::owners::{with_owners, Event};
use alice_engine::guardian::source::analyze_source;
use alice_engine::guardian::syntax::{extract_pat_names, get_expr_line, Expression, Literal, Pattern, Statement};

fn text(s: &str, line: usize) -> Expression {
    Expression::Lit { lit: Literal::Str(s.to_string()), line, col: 4 }
}

fn name(s: &str, line: usize) -> Expression {
    Expression::Path { segments: vec![s.to_string()], lines: vec![line], is_ident: true }
}

fn tail(e: Expression) -> Statement {
    Statement::Expr { expr: e, semi: false }
}

fn function(fn_name: &str, line: usize, body: Vec<Statement>) -> Decl {
    Decl::Fn { name: fn_name.to_string(), line, body, is_method: false, owner: None }
}

#[test]
fn a_literal_at_the_end_is_found() {
    let decls = vec![function("f", 1, vec![tail(text("leak", 2))])];
    let found = analyze_file(&decls);
    assert_eq!(found.findings.len(), 1);
    assert_eq!(found.findings[0].fn_name, "f");
    assert!(found.findings[0].is_implicit);
    assert_eq!(found.findings[0].literals[0].value, "\"leak\"");
    let lines = report("src/f.rs", &found, "fn f() {\n    \"leak\"\n}\n");
    assert_eq!(lines[0], "━━━ src/f.rs ━━━");
    assert!(lines.iter().any(|l| l.contains("fn `f` (line 1)")));
    assert_eq!(summary(1), "Found 1 potential literal leak(s).");
    assert_eq!(summary(0), "✓ No literal constant leaks found.");
}

#[test]
fn a_literal_is_followed_through_variables() {
    let body = vec![
        Statement::Local {
            pat: Pattern::Ident("x".to_string()),
            init: Some(text("leak", 2)),
            diverge: None,
            line: 2,
        },
        tail(name("x", 3)),
    ];
    let found = analyze_file(&vec![function("f", 1, body)]);
    assert_eq!(found.findings.len(), 1);
    assert_eq!(found.findings[0].literals[0].line, 2);
}

#[test]
fn a_literal_is_followed_through_calls() {
    let g = function("g", 1, vec![tail(text("leak", 2))]);
    let call = Expression::Call { func: Box::new(name("g", 5)), args: vec![] };
    let f = function("f", 4, vec![tail(call)]);
    let found = analyze_file(&vec![g, f]);
    assert_eq!(found.findings.len(), 2);
    let returns = collect_returns(&vec![function("g", 1, vec![tail(text("leak", 2))])]);
    assert!(returns.contains_key("g"));
}

#[test]
fn explicit_returns_are_found() {
    let ret = Expression::Return { value: Some(Box::new(text("leak", 2))), line: 2 };
    let body = vec![Statement::Expr { expr: ret, semi: true }, tail(name("x", 3))];
    let found = analyze_file(&vec![function("f", 1, body)]);
    assert_eq!(found.findings.len(), 1);
    assert!(!found.findings[0].is_implicit);
    assert_eq!(found.findings[0].return_line, 2);
}

#[test]
fn what_does_not_leave_is_not_found() {
    let body = vec![Statement::Expr { expr: text("kept", 2), semi: true }, tail(name("x", 3))];
    let found = analyze_file(&vec![function("f", 1, body)]);
    assert!(found.findings.is_empty());
    assert!(report("p", &found, "").is_empty());
}

#[test]
fn public_constants_are_found() {
    let decls = vec![
        Decl::Const {
            name: "A".to_string(),
            line: 1,
            value: text("leak", 1),
            is_public: true,
            in_impl: false,
            owner: None,
        },
        Decl::Const {
            name: "B".to_string(),
            line: 2,
            value: text("kept", 2),
            is_public: false,
            in_impl: false,
            owner: None,
        },
    ];
    let found = analyze_file(&decls);
    assert_eq!(found.const_findings.len(), 1);
    assert_eq!(found.const_findings[0].name, "A");
    assert_eq!(found.const_findings[0].kind, "const");
}

#[test]
fn values_are_put_together() {
    let v = collect_fn_return_value(&vec![tail(text("a", 1))]);
    assert_eq!(v.extract_literals().len(), 1);
    let both = SymValue::compound(vec![v, SymValue::Opaque]);
    assert_eq!(both.extract_literals().len(), 1);
    assert!(matches!(SymValue::compound(vec![SymValue::Opaque]), SymValue::Opaque));
}

#[test]
fn patterns_name_their_variables() {
    let p = Pattern::Tuple(vec![
        Pattern::Ident("a".to_string()),
        Pattern::Reference(Box::new(Pattern::Ident("b".to_string()))),
    ]);
    assert_eq!(extract_pat_names(&p), vec!["a".to_string(), "b".to_string()]);
    assert_eq!(get_expr_line(&text("x", 9)), 9);
}

#[test]
fn plain_values_never_count() {
    for l in vec![Literal::Bool(true), Literal::Int("0".to_string()), Literal::Str(String::new())] {
        let e = Expression::Lit { lit: l, line: 2, col: 0 };
        assert!(analyze_file(&vec![function("f", 1, vec![tail(e)])]).findings.is_empty());
    }
}

#[test]
fn conditions_are_not_values() {
    let choice = |cond: Expression| Expression::If {
        cond: Box::new(cond),
        then_branch: vec![tail(name("x", 3))],
        else_branch: Some(Box::new(Expression::Block(vec![tail(text("leak", 4))]))),
    };
    for cond in vec![text("condition", 2), name("c", 2)] {
        let found = analyze_file(&vec![function("f", 1, vec![tail(choice(cond))])]);
        let literals: usize = found.findings.iter().map(|f| f.literals.len()).sum();
        assert!(literals >= 1);
        assert!(found.findings.iter().all(|f| f.literals.iter().all(|l| l.value == "\"leak\"")));
    }
}

#[test]
fn programs_are_read_from_their_text() {
    let text = "pub(crate) const A: &str = \"hidden\";\n\
                pub const\n    B: &str = \"shown\";\n\
                pub fn outer(n: u32) -> u32 {\n    fn inner() -> u32 {\n        7\n    }\n    \
                if n == 3 { return 4; }\n    n\n}\n";
    let found = analyze_source(text).unwrap();
    assert_eq!(found.const_findings.len(), 1);
    assert_eq!(found.const_findings[0].name, "B");
    assert_eq!(found.const_findings[0].line, 3);
    assert_eq!(found.const_findings[0].literals[0].value, "\"shown\"");
    assert_eq!(found.findings.len(), 2);
    assert_eq!(found.findings[0].fn_name, "outer");
    assert_eq!(found.findings[0].fn_line, 4);
    assert_eq!(found.findings[0].return_line, 8);
    assert!(!found.findings[0].is_implicit);
    assert_eq!(found.findings[0].literals[0].value, "4");
    assert_eq!(found.findings[1].fn_name, "inner");
    assert_eq!(found.findings[1].return_line, 6);
    assert_eq!(found.findings[1].literals[0].line, 6);
    assert_eq!(found.findings[1].literals[0].col, 8);
    let lines = report("f.rs", &found, text);
    assert!(lines.contains(&"    source: 7".to_string()));
}

#[test]
fn constants_of_types_are_followed() {
    let text = "struct M;\nimpl M {\n    const ROLE: &'static str = \"agent\";\n    \
                fn role(&self) -> &'static str {\n        Self::ROLE\n    }\n}\n\
                fn other() -> String {\n    String::from(M::ROLE)\n}\n\
                fn third(c: bool) -> u8 {\n    match c { true => b'x', _ => 0 }\n}\n";
    let found = analyze_source(text).unwrap();
    assert!(found.const_findings.is_empty());
    let names: Vec<&str> = found.findings.iter().map(|f| f.fn_name.as_str()).collect();
    assert_eq!(names, vec!["role", "other", "third"]);
    assert!(found.findings.iter().take(2).all(|f| f.literals[0].value == "\"agent\""));
    assert_eq!(found.findings[2].literals.len(), 1);
    assert_eq!(found.findings[2].literals[0].value, "b'x'");
    assert_eq!(found.findings[2].literals[0].kind, "byte");
}

#[test]
fn every_expression_is_read() {
    let text = "fn f(a: u32) -> (u32, [u32; 2], u32) {\n    let (b, _) = (1, 2);\n    \
                let Some(c) = g(a) else { return h(9); };\n    \
                let d = loop { break 3; };\n    \
                let e = if a < 8 { -4 } else { (5 as i32) };\n    \
                let r = &10;\n    let s = S { x: 11 };\n    let t = Box::new(12);\n    \
                let u = a.get(99).unwrap_or(13);\n    let v = [14; 98];\n    let w = 15..16;\n    \
                let x = unsafe { 17 };\n    let y = 18 + a;\n    let z;\n    z = 19;\n    \
                (b, c, d, e, r, s, t, u, v, w, x, y, z)\n}\n";
    let found = analyze_source(text).unwrap();
    assert_eq!(found.findings.len(), 1);
    let values: Vec<&str> = found.findings[0].literals.iter().map(|l| l.value.as_str()).collect();
    let expected = vec![
        "1", "2", "3", "4", "5", "10", "11", "12", "13", "14", "15", "16", "17", "18", "19",
    ];
    assert_eq!(values, expected);
    assert_eq!(found.findings[0].return_line, 16);
}

#[test]
fn texts_that_are_no_programs_are_refused() {
    assert!(analyze_source("fn (").is_err());
    let nothing = analyze_source("").unwrap();
    assert!(nothing.findings.is_empty() && nothing.const_findings.is_empty());
}

#[test]
fn parts_stand_flat_in_what_they_make_up() {
    let one = |n: usize| {
        let v = collect_fn_return_value(&vec![tail(text("a", n))]);
        v
    };
    assert!(matches!(SymValue::compound(vec![]), SymValue::Opaque));
    assert!(matches!(SymValue::compound(vec![one(1), SymValue::Opaque]), SymValue::Literal(_)));
    let inner = SymValue::compound(vec![one(1), one(2)]);
    match SymValue::compound(vec![inner, one(3)]) {
        SymValue::Compound(parts) => {
            assert_eq!(parts.len(), 3);
            assert!(parts.iter().all(|p| matches!(p, SymValue::Literal(_))));
        }
        other => panic!("unexpected value {:?}", other),
    }
}

fn method(name: &str) -> Event {
    Event::Fn { name: name.to_string(), line: 1, body: vec![], is_method: true }
}

#[test]
fn methods_belong_to_the_innermost_impl() {
    let enter = |segments: Option<Vec<&str>>| Event::EnterImpl {
        segments: segments.map(|v| v.into_iter().map(|s| s.to_string()).collect()),
    };
    let decls = with_owners(vec![
        method("before"),
        enter(Some(vec!["a", "B"])),
        method("outer"),
        Event::Fn { name: "free".to_string(), line: 1, body: vec![], is_method: false },
        enter(None),
        method("nameless"),
        Event::LeaveImpl,
        Event::Const {
            name: "C".to_string(),
            line: 1,
            value: text("x", 1),
            is_public: true,
            in_impl: true,
        },
        Event::LeaveImpl,
        method("after"),
        Event::Static { name: "S".to_string(), line: 1, value: text("x", 1), is_public: false },
    ]);
    let owners: Vec<(String, Option<String>)> = decls
        .into_iter()
        .map(|d| match d {
            Decl::Fn { name, owner, .. } => (name, owner),
            Decl::Const { name, owner, .. } => (name, owner),
            Decl::Static { name, .. } => (name, None),
        })
        .collect();
    let b = Some("B".to_string());
    let expected = vec![
        ("before".to_string(), None),
        ("outer".to_string(), b.clone()),
        ("free".to_string(), None),
        ("nameless".to_string(), None),
        ("C".to_string(), b),
        ("after".to_string(), None),
        ("S".to_string(), None),
    ];
    assert_eq!(owners, expected);
}

#[test]
fn impls_within_impls_are_told_apart() {
    let source = "impl a::Outer {\n    const R: u8 = 5;\n    fn f() {\n        impl Inner {\n            \
                  const R: u8 = 6;\n        }\n    }\n    const T: u8 = 7;\n}\n\
                  impl [u8] {\n    const R: u8 = 8;\n}\n\
                  fn one() -> u8 { Outer::R }\nfn two() -> u8 { Inner::R }\n\
                  fn three() -> u8 { Outer::T }\nfn four() -> u8 { a::Outer::T }\n";
    let found = analyze_source(source).unwrap();
    let values: Vec<(&str, &str)> = found
        .findings
        .iter()
        .map(|f| (f.fn_name.as_str(), f.literals[0].value.as_str()))
        .collect();
    assert_eq!(values, vec![("one", "5"), ("two", "6"), ("three", "7")]);
}
