use detectors::ast::{Function, Parameter, Statement, Visibility};
use detectors::delegatecall_user_controlled::DelegatecallUserControlledDetector;
use detectors::detector::{AnalysisContext, ContractTraits, Severity};

fn traits() -> ContractTraits {
    ContractTraits {
        is_interface: false,
        is_library: false,
        is_proxy: false,
        is_interface_only: false,
        is_test: false,
    }
}

fn param(name: &str, ty: &str) -> Parameter {
    Parameter { name: Some(name.to_string()), type_text: ty.to_string() }
}

fn forward(start: usize, end: usize, parameters: Vec<Parameter>) -> Function {
    Function {
        name: "forward".to_string(),
        name_line: start,
        name_column: 25,
        start_line: start,
        end_line: end,
        visibility: Visibility::External,
        modifiers: Vec::new(),
        parameters,
        body: Some(vec![Statement::Other]),
        access_modifier_guarded: false,
    }
}

fn detect_findings(detector: &DelegatecallUserControlledDetector, source: &str, f: Function) -> Vec<detectors::detector::Finding> {
    let ctx = AnalysisContext {
        source_code: source.to_string(),
        contract_source: source.to_string(),
        functions: vec![f],
        traits: traits(),
    };
    detector.detect(&ctx)
}

#[test]
fn delegatecall_user_controlled_test_detector_properties() {
    let detector = DelegatecallUserControlledDetector::new();
    assert_eq!(detector.name(), "User-Controlled Delegatecall");
    assert_eq!(detector.default_severity(), Severity::Critical);
    assert!(detector.is_enabled());
    assert_eq!(detector.id().0, "delegatecall-user-controlled");
}

#[test]
fn test_user_controlled_delegatecall_target_fires() {
    let detector = DelegatecallUserControlledDetector::new();
    let source = r#"
            contract Proxy {
                function forward(address target, bytes calldata data) external {
                    (bool ok, ) = target.delegatecall(data);
                    require(ok, "delegatecall failed");
                }
            }
        "#;
    let f = forward(2, 5, vec![param("target", "Address"), param("data", "Bytes")]);
    let findings = detect_findings(&detector, source, f);
    assert!(
        !findings.is_empty(),
        "delegatecall with user-controlled target parameter should fire"
    );
    assert!(
        findings
            .iter()
            .all(|f| f.detector_id.0 == "delegatecall-user-controlled"),
        "all findings should come from delegatecall-user-controlled"
    );
}

#[test]
fn test_owner_checked_delegatecall_does_not_fire() {
    let detector = DelegatecallUserControlledDetector::new();
    let source = r#"
            contract OwnedProxy {
                address public owner;
                function forward(address target, bytes calldata data) external {
                    require(msg.sender == owner, "not owner");
                    (bool ok, ) = target.delegatecall(data);
                    require(ok, "delegatecall failed");
                }
            }
        "#;
    let f = forward(3, 7, vec![param("target", "Address"), param("data", "Bytes")]);
    let findings = detect_findings(&detector, source, f);
    assert!(findings.is_empty(), "owner-checked delegatecall should not fire");
}

#[test]
fn parameter_target_finding_is_exact() {
    let detector = DelegatecallUserControlledDetector::new();
    let source = "contract C {\n    function forward(address impl) external {\n        impl.delegatecall(msg.data);\n    }\n}\n";
    let findings = detect_findings(&detector, source, forward(1, 3, vec![param("impl", "ADDRESS")]));
    assert_eq!(findings.len(), 1);
    assert_eq!(
        findings[0].message,
        "Function 'forward' performs delegatecall with user-controlled target. Delegatecall target comes directly from a function parameter, allowing callers to execute arbitrary code in the contract's context. This allows arbitrary code execution in the contract's storage context, enabling complete takeover and fund theft."
    );
    assert_eq!(findings[0].cwe_ids, vec![829, 494]);
    assert_eq!(findings[0].line, 1);
    assert_eq!(findings[0].column, 25);
    assert_eq!(findings[0].length, 7);
    assert_eq!(findings[0].severity, Severity::Critical);
    assert_eq!(
        findings[0].fix_suggestion.as_deref(),
        Some("Remove user control over delegatecall target in 'forward'. Use a whitelist of approved addresses: mapping(address => bool) approvedTargets; Or avoid delegatecall entirely and use regular external calls.")
    );
}

#[test]
fn msg_sender_target_reported_as_indirect() {
    let detector = DelegatecallUserControlledDetector::new();
    let source = "contract C {\n    function forward(bytes data) external {\n        msg.sender.delegatecall(data);\n    }\n}\n";
    let findings = detect_findings(&detector, source, forward(1, 3, vec![param("data", "Bytes")]));
    assert_eq!(findings.len(), 1);
    assert!(findings[0]
        .message
        .contains("Delegatecall target is derived from function parameters or user input"));
}

#[test]
fn modifier_source_and_guarded_functions_skipped() {
    let detector = DelegatecallUserControlledDetector::new();
    let source = "contract C {\n\t  modifier forward(address target) {\n        target.delegatecall(\"\");\n    }\n}\n";
    assert!(detect_findings(&detector, source, forward(1, 3, vec![param("target", "Address")])).is_empty());
    let source2 = "contract C {\n    function forward(address target) external {\n        target.delegatecall(\"\");\n    }\n}\n";
    let mut f = forward(1, 3, vec![param("target", "Address")]);
    f.access_modifier_guarded = true;
    assert!(detect_findings(&detector, source2, f).is_empty());
}

#[test]
fn owner_managed_library_lookup_skipped() {
    let detector = DelegatecallUserControlledDetector::new();
    let source = "contract C {\n    function run(uint256 index) external {\n        libraries[index].delegatecall(\"\");\n    }\n    function add(address l) external onlyOwner { libraries.push(l); }\n}\n";
    assert!(detect_findings(&detector, source, forward(1, 3, vec![param("index", "Uint256")])).is_empty());
}

#[test]
fn diamond_contract_recognised() {
    let detector = DelegatecallUserControlledDetector::new();
    let ctx = AnalysisContext {
        source_code: "contract Diamond is IDiamondCut { function facetAddress(bytes4 s) {} }".to_string(),
        contract_source: String::new(),
        functions: Vec::new(),
        traits: traits(),
    };
    assert!(detector.is_diamond_contract(&ctx));
    let ctx2 = AnalysisContext {
        source_code: "contract X { DiamondStorage ds; MAPPING(bytes4 => address) FACETS; }".to_string(),
        contract_source: String::new(),
        functions: Vec::new(),
        traits: traits(),
    };
    assert!(detector.is_diamond_contract(&ctx2));
    let ctx3 = AnalysisContext {
        source_code: "contract Plain { }".to_string(),
        contract_source: String::new(),
        functions: Vec::new(),
        traits: traits(),
    };
    assert!(!detector.is_diamond_contract(&ctx3));
}

#[test]
fn proxy_contract_not_reported() {
    let detector = DelegatecallUserControlledDetector::new();
    let source = "contract C {\n    function forward(address target) external {\n        target.delegatecall(\"\");\n    }\n}\n";
    let ctx = AnalysisContext {
        source_code: source.to_string(),
        contract_source: source.to_string(),
        functions: vec![forward(1, 3, vec![param("target", "Address")])],
        traits: ContractTraits { is_proxy: true, ..traits() },
    };
    assert!(detector.detect(&ctx).is_empty());
}

#[test]
fn delegatecall_try_detect_refuses_reversed_span_only_where_read() {
    let detector = DelegatecallUserControlledDetector::new();
    let source = "contract C {\n    a\n    b\n    c\n}\n";
    let ctx = AnalysisContext {
        source_code: source.to_string(),
        contract_source: source.to_string(),
        functions: vec![forward(3, 0, vec![])],
        traits: traits(),
    };
    assert!(detector.try_detect(&ctx).is_none());
    let ctx2 = AnalysisContext {
        traits: ContractTraits { is_proxy: true, ..traits() },
        ..ctx
    };
    assert_eq!(detector.try_detect(&ctx2).map(|v| v.len()), Some(0));
}
