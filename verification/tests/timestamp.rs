use detectors::ast::{Expression, Function, Statement, Visibility};
use detectors::detector::{AnalysisContext, ContractTraits, DetectorCategory, Severity};
use detectors::timestamp::BlockDependencyDetector;

fn ident(name: &str) -> Expression {
    Expression::Identifier(name.to_string())
}

fn member(base: Expression, name: &str) -> Expression {
    Expression::MemberAccess { expression: Box::new(base), member: name.to_string() }
}

fn traits() -> ContractTraits {
    ContractTraits {
        is_interface: false,
        is_library: false,
        is_proxy: false,
        is_interface_only: false,
        is_test: false,
    }
}

fn function(name: &str, body: Option<Vec<Statement>>) -> Function {
    Function {
        name: name.to_string(),
        name_line: 2,
        name_column: 13,
        start_line: 2,
        end_line: 4,
        visibility: Visibility::Public,
        modifiers: Vec::new(),
        parameters: Vec::new(),
        body,
        access_modifier_guarded: false,
    }
}

fn context(source: &str, functions: Vec<Function>) -> AnalysisContext {
    AnalysisContext {
        source_code: source.to_string(),
        contract_source: source.to_string(),
        functions,
        traits: traits(),
    }
}

#[test]
fn block_dependency_detector_properties() {
    let detector = BlockDependencyDetector::new();
    assert_eq!(detector.id().0, "block-dependency");
    assert_eq!(detector.name(), "Block Dependency");
    assert_eq!(
        detector.description(),
        "Dangerous dependence on block properties including timestamp manipulation for time-based calculations"
    );
    assert_eq!(detector.default_severity(), Severity::Medium);
    assert_eq!(detector.categories(), vec![DetectorCategory::Timestamp, DetectorCategory::DeFi]);
    assert!(detector.is_enabled());
    let d = BlockDependencyDetector::default();
    assert_eq!(d.name(), "Block Dependency");
}

#[test]
fn block_members_recognised() {
    let detector = BlockDependencyDetector::new();
    assert!(detector.expression_uses_timestamp(&member(ident("block"), "timestamp")));
    assert!(detector.expression_uses_timestamp(&member(ident("block"), "NUMBER")));
    assert!(detector.expression_uses_timestamp(&member(ident("block"), "Difficulty")));
    assert!(!detector.expression_uses_timestamp(&member(ident("block"), "coinbase")));
    assert!(!detector.expression_uses_timestamp(&member(ident("Block"), "timestamp")));
    assert!(!detector.expression_uses_timestamp(&ident("timestamp")));
}

#[test]
fn block_reads_found_in_nested_expressions() {
    let detector = BlockDependencyDetector::new();
    let now_call = Expression::FunctionCall { function: Box::new(ident("now")), arguments: Vec::new() };
    assert!(detector.expression_uses_timestamp(&now_call));
    let arg = Expression::FunctionCall {
        function: Box::new(ident("f")),
        arguments: vec![ident("x"), member(ident("block"), "timestamp")],
    };
    assert!(detector.expression_uses_timestamp(&arg));
    let cond = Expression::Conditional {
        condition: Box::new(ident("c")),
        true_expression: Box::new(ident("a")),
        false_expression: Box::new(Expression::BinaryOperation {
            left: Box::new(member(ident("block"), "number")),
            right: Box::new(ident("b")),
        }),
    };
    assert!(detector.expression_uses_timestamp(&cond));
    let idx = Expression::IndexAccess {
        base: Box::new(ident("m")),
        index: Some(Box::new(member(ident("block"), "timestamp"))),
    };
    assert!(!detector.expression_uses_timestamp(&idx));
}

#[test]
fn statement_walk() {
    let detector = BlockDependencyDetector::new();
    let ts = member(ident("block"), "timestamp");
    let in_if = vec![Statement::If {
        condition: ident("x"),
        then_branch: Box::new(Statement::Block(vec![Statement::Return { value: Some(ts) }])),
        else_branch: None,
    }];
    assert!(detector.check_statements_for_timestamp_use(&in_if));
    let not_block_body = vec![Statement::For {
        body: Box::new(Statement::Expression(member(ident("block"), "timestamp"))),
    }];
    assert!(!detector.check_statements_for_timestamp_use(&not_block_body));
    let decl = vec![Statement::Other, Statement::VariableDeclaration {
        initial_value: Some(member(ident("block"), "number")),
    }];
    assert!(detector.check_statements_for_timestamp_use(&decl));
}

#[test]
fn timestamp_dependency_reported_exactly() {
    let detector = BlockDependencyDetector::new();
    let src = "contract Lottery {\n\n    function draw() public {\n        winner = block.timestamp % n;\n    }\n}\n";
    let body = vec![Statement::Expression(Expression::Assignment {
        left: Box::new(ident("winner")),
        right: Box::new(Expression::BinaryOperation {
            left: Box::new(member(ident("block"), "timestamp")),
            right: Box::new(ident("n")),
        }),
    })];
    let ctx = context(src, vec![function("draw", Some(body)), function("idle", None)]);
    let findings = detector.detect(&ctx);
    assert_eq!(findings.len(), 1);
    let f = &findings[0];
    assert_eq!(
        f.message,
        "Function 'draw' has dangerous dependence on block timestamp or number which can be manipulated by miners within certain bounds (~15 seconds for timestamp)."
    );
    assert_eq!((f.line, f.column, f.length), (2, 13, 4));
    assert_eq!(f.cwe_ids, vec![330, 367]);
    assert_eq!(f.severity, Severity::Medium);
    assert_eq!(
        f.fix_suggestion.as_deref(),
        Some("Avoid using block.timestamp or block.number for critical logic in function 'draw'. Use Chainlink VRF for randomness, or implement time delays with sufficient tolerance for miner manipulation (~15 second buffer).")
    );
}

#[test]
fn time_by_design_contracts_not_reported() {
    let detector = BlockDependencyDetector::new();
    let body = vec![Statement::Expression(member(ident("block"), "timestamp"))];
    let ctx = context("contract VESTINGWallet {}", vec![function("release", Some(body))]);
    assert!(detector.detect(&ctx).is_empty());
    let body2 = vec![Statement::Expression(member(ident("block"), "timestamp"))];
    let mut ctx2 = context("contract Plain {}", vec![function("release", Some(body2))]);
    ctx2.traits.is_library = true;
    assert!(detector.detect(&ctx2).is_empty());
}
