use detectors::ast::{Expression, Function, Statement, Visibility};
use detectors::detector::{AnalysisContext, ContractTraits, Severity};
use detectors::external::UncheckedCallDetector;

fn ident(name: &str) -> Expression {
    Expression::Identifier(name.to_string())
}

fn member(base: Expression, name: &str) -> Expression {
    Expression::MemberAccess { expression: Box::new(base), member: name.to_string() }
}

fn call(callee: Expression) -> Expression {
    Expression::FunctionCall { function: Box::new(callee), arguments: Vec::new() }
}

fn traits() -> ContractTraits {
    ContractTraits {
        is_interface: false,
        is_library: false,
        is_proxy: false,
        is_interface_only: false,
        is_test: false,
    }
}

fn pay(body: Vec<Statement>) -> Function {
    Function {
        name: "pay".to_string(),
        name_line: 1,
        name_column: 13,
        start_line: 1,
        end_line: 3,
        visibility: Visibility::External,
        modifiers: Vec::new(),
        parameters: Vec::new(),
        body: Some(body),
        access_modifier_guarded: false,
    }
}

fn context(source: &str, functions: Vec<Function>) -> AnalysisContext {
    AnalysisContext {
        source_code: source.to_string(),
        contract_source: source.to_string(),
        functions,
        traits: traits(),
    }
}

/// `recipient.call{value: v}("")` as a statement: the call of the
/// call-options wrapper.
fn bare_value_call() -> Statement {
    Statement::Expression(call(call(member(ident("recipient"), "call"))))
}

#[test]
fn external_test_detector_properties() {
    let detector = UncheckedCallDetector::new();
    assert_eq!(detector.id().0, "unchecked-external-call");
    assert_eq!(detector.default_severity(), Severity::Medium);
    assert!(detector.is_enabled());
}

#[test]
fn test_is_external_call_plain_member_access() {
    let detector = UncheckedCallDetector::new();
    let expr = member(ident("recipient"), "call");
    assert!(
        detector.is_external_call(&expr),
        "plain .call member access should be recognized"
    );
}

#[test]
fn test_is_external_call_with_call_options_wrapper() {
    let detector = UncheckedCallDetector::new();
    let call_options_wrapper = call(member(ident("recipient"), "call"));
    assert!(
        detector.is_external_call(&call_options_wrapper),
        "call-options wrapper should be peeled and recognized"
    );
}

#[test]
fn test_is_not_external_call_for_arrays() {
    let detector = UncheckedCallDetector::new();
    let expr = member(ident("shareholders"), "call");
    assert!(
        !detector.is_external_call(&expr),
        "array-like names should not be flagged"
    );
}

#[test]
fn test_has_inline_success_check() {
    let detector = UncheckedCallDetector::new();

    let checked = r#"
            (bool success, ) = addr.call{value: amount}("");
            require(success, "Transfer failed");
        "#;
    assert!(detector.has_inline_success_check(checked));

    let unchecked = r#"
            addr.call{value: amount}("");
        "#;
    assert!(!detector.has_inline_success_check(unchecked));
}

#[test]
fn external_call_kinds() {
    let detector = UncheckedCallDetector::new();
    assert!(detector.is_external_call(&member(ident("to"), "SEND")));
    assert!(detector.is_external_call(&member(ident("to"), "staticcall")));
    assert!(detector.is_external_call(&member(ident("to"), "Transfer")));
    assert!(detector.is_external_call(&member(ident("to"), "delegatecall")));
    assert!(!detector.is_external_call(&member(ident("to"), "approve")));
    assert!(!detector.is_external_call(&member(ident("PayeeList"), "call")));
    assert!(!detector.is_external_call(&member(member(ident("a"), "push"), "call")));
    assert!(!detector.is_external_call(&ident("call")));
    assert!(detector.is_array_or_internal_operation(&member(ident("x"), "length")));
    assert!(!detector.is_array_or_internal_operation(&ident("recipient")));
}

#[test]
fn source_patterns_case_insensitive() {
    let detector = UncheckedCallDetector::new();
    assert!(detector.has_inline_success_check("(BOOL OK, ) = a.call(\"\"); IF (!OK) revert();"));
    assert!(detector.is_chained_call_pattern("EMIT Paid(); a.CALL(\"\");"));
    assert!(detector.is_chained_call_pattern("x = ABI.DECODE(data, (uint));"));
    assert!(!detector.is_chained_call_pattern("a.call(\"\");"));
    assert!(detector.is_known_safe_function("token.Approve(spender, x);"));
    assert!(detector.is_known_safe_function("uint a = token.ALLOWANCE(o, s);"));
    assert!(!detector.is_known_safe_function("token.transfer(to, x);"));
}

#[test]
fn unchecked_bare_call_reported_exactly() {
    let detector = UncheckedCallDetector::new();
    let src = "contract C {\n    function pay() external {\n        recipient.call{value: 1}(\"\");\n    }\n}\n";
    let ctx = context(src, vec![pay(vec![bare_value_call()])]);
    let findings = detector.detect(&ctx);
    assert_eq!(findings.len(), 1);
    let f = &findings[0];
    assert_eq!(f.message, "External call in function 'pay' does not check return value");
    assert_eq!(f.detector_id.0, "unchecked-external-call");
    assert_eq!(f.severity, Severity::Medium);
    assert_eq!((f.line, f.column, f.length), (1, 13, 3));
    assert_eq!(f.cwe_ids, vec![252]);
    assert_eq!(
        f.fix_suggestion.as_deref(),
        Some("Check the return value of external calls in function 'pay'")
    );
}

#[test]
fn nested_calls_each_reported() {
    let detector = UncheckedCallDetector::new();
    let src = "contract C {\n    function pay() external {\n        if (x) { a.send(1); } else b.send(1);\n    }\n}\n";
    let body = vec![Statement::If {
        condition: ident("x"),
        then_branch: Box::new(Statement::Block(vec![Statement::Expression(call(member(ident("a"), "send")))])),
        else_branch: Some(Box::new(Statement::Expression(call(member(ident("b"), "send"))))),
    }, Statement::While {
        body: Box::new(Statement::TryStatement {
            try_body: vec![bare_value_call()],
            catch_clauses: vec![vec![bare_value_call()]],
        }),
    }];
    let ctx = context(src, vec![pay(body)]);
    assert_eq!(detector.detect(&ctx).len(), 4);
}

#[test]
fn checked_success_not_reported() {
    let detector = UncheckedCallDetector::new();
    let src = "contract C {\n    function pay() external {\n        (bool success, ) = recipient.call{value: 1}(\"\"); require(success);\n    }\n}\n";
    let body = vec![Statement::Expression(Expression::Assignment {
        left: Box::new(ident("success")),
        right: Box::new(call(call(member(ident("recipient"), "call")))),
    })];
    let ctx = context(src, vec![pay(body)]);
    assert!(detector.detect(&ctx).is_empty());
}

#[test]
fn assigned_call_without_check_reported() {
    let detector = UncheckedCallDetector::new();
    let src = "contract C {\n    function pay() external {\n        (bool ok, ) = recipient.call(\"\"); emit Done(); approve();\n    }\n}\n";
    let body = vec![
        Statement::Expression(Expression::Assignment {
            left: Box::new(ident("ok")),
            right: Box::new(call(member(ident("recipient"), "call"))),
        }),
        Statement::VariableDeclaration { initial_value: Some(call(member(ident("r"), "staticcall"))) },
        Statement::Expression(call(member(ident("recipient"), "call"))),
    ];
    let ctx = context(src, vec![pay(body)]);
    // The bare call is excused by the chained-call and approval patterns; the
    // bound calls are not.
    assert_eq!(detector.detect(&ctx).len(), 2);
}

#[test]
fn exempt_contracts_and_functions_not_reported() {
    let detector = UncheckedCallDetector::new();
    let src = "contract C {\n    function pay() external {\n        recipient.call{value: 1}(\"\");\n    }\n}\n";
    let mut ctx = context(src, vec![pay(vec![bare_value_call()])]);
    ctx.contract_source = "using Address for address; contract C {}".to_string();
    assert!(detector.detect(&ctx).is_empty());
    let mut ctx2 = context(src, vec![pay(vec![bare_value_call()])]);
    ctx2.traits.is_test = true;
    assert!(detector.detect(&ctx2).is_empty());
    let src3 = "contract C {\n    function pay() external {\n        try x.f() {} catch { recipient.call(\"\"); }\n    }\n}\n";
    let ctx3 = context(src3, vec![pay(vec![bare_value_call()])]);
    assert!(detector.detect(&ctx3).is_empty());
}

#[test]
fn return_value_checked_only_for_non_expressions() {
    let detector = UncheckedCallDetector::new();
    assert!(!detector.return_value_checked(&Statement::Expression(ident("x"))));
    assert!(detector.return_value_checked(&Statement::Other));
}

#[test]
fn indexed_receiver_is_an_external_call() {
    let detector = UncheckedCallDetector::new();
    let payee = Expression::IndexAccess {
        base: Box::new(ident("payeeList")),
        index: Some(Box::new(ident("i"))),
    };
    assert!(detector.is_external_call(&call(member(payee, "call"))));
}

#[test]
fn unchecked_try_detect_refuses_reversed_span_only_where_read() {
    let detector = UncheckedCallDetector::new();
    let src = "contract C {\n    a\n    b\n    c\n}\n";
    let mut f = pay(vec![bare_value_call()]);
    f.start_line = 3;
    f.end_line = 0;
    let ctx = context(src, vec![f]);
    assert!(detector.try_detect(&ctx).is_none());
    let mut g = pay(vec![]);
    g.body = None;
    g.start_line = 3;
    g.end_line = 0;
    assert_eq!(detector.try_detect(&context(src, vec![g])).map(|v| v.len()), Some(0));
    let mut h = pay(vec![bare_value_call()]);
    h.start_line = 3;
    h.end_line = 0;
    let mut ctx3 = context(src, vec![h]);
    ctx3.traits.is_library = true;
    assert_eq!(detector.try_detect(&ctx3).map(|v| v.len()), Some(0));
}
