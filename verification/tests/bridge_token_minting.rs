use detectors::ast::{Function, Visibility};
use detectors::bridge_token_minting::{
    modifier_body_has_access_control, TokenMintingDetector,
};
use detectors::detector::{AnalysisContext, ContractTraits, DetectorCategory, Severity};

fn plain_traits() -> ContractTraits {
    ContractTraits {
        is_interface: false,
        is_library: false,
        is_proxy: false,
        is_interface_only: false,
        is_test: false,
    }
}

fn function(name: &str, start: usize, end: usize, visibility: Visibility, modifiers: Vec<&str>) -> Function {
    Function {
        name: name.to_string(),
        name_line: start,
        name_column: 4,
        start_line: start,
        end_line: end,
        visibility,
        modifiers: modifiers.into_iter().map(|m| m.to_string()).collect(),
        parameters: Vec::new(),
        body: Some(Vec::new()),
        access_modifier_guarded: false,
    }
}

fn context(source: &str, functions: Vec<Function>) -> AnalysisContext {
    AnalysisContext {
        source_code: source.to_string(),
        contract_source: source.to_string(),
        functions,
        traits: plain_traits(),
    }
}

#[test]
fn bridge_token_minting_test_detector_properties() {
    let detector = TokenMintingDetector::new();
    assert_eq!(detector.name(), "Bridge Token Minting Control");
    assert_eq!(detector.default_severity(), Severity::Critical);
    assert!(detector.is_enabled());
    assert!(detector.categories().contains(&DetectorCategory::CrossChain));
    assert!(detector.categories().contains(&DetectorCategory::AccessControl));
}

#[test]
fn test_empty_modifier_not_trusted() {
    let src = r#"
contract Bridge {
    modifier onlyTest() {
        _;
    }
    function mint(uint256 amount) external onlyTest {}
}
"#;
    assert!(
        !modifier_body_has_access_control("onlyTest", src),
        "empty modifier (only _;) should not count as access control"
    );
}

#[test]
fn test_modifier_with_require_is_trusted() {
    let src = r#"
contract Bridge {
    modifier onlyBridge() {
        require(msg.sender == bridge, "Not bridge");
        _;
    }
    function mint(uint256 amount) external onlyBridge {}
}
"#;
    assert!(
        modifier_body_has_access_control("onlyBridge", src),
        "modifier with require(msg.sender) should be trusted"
    );
}

#[test]
fn test_modifier_with_if_revert_is_trusted() {
    let src = r#"
contract Bridge {
    modifier onlyAdmin() {
        if (msg.sender != admin) revert Unauthorized();
        _;
    }
}
"#;
    assert!(modifier_body_has_access_control("onlyAdmin", src));
}

#[test]
fn test_modifier_with_oz_checkrole_is_trusted() {
    let src = r#"
contract Bridge {
    modifier onlyMinter() {
        _checkRole(MINTER_ROLE);
        _;
    }
}
"#;
    assert!(modifier_body_has_access_control("onlyMinter", src));
}

#[test]
fn test_modifier_not_found_assumed_inherited() {
    let src = "contract Bridge { function mint() external onlyOwner {} }";
    assert!(
        modifier_body_has_access_control("onlyOwner", src),
        "modifier not defined locally should be assumed inherited (safe)"
    );
}

#[test]
fn test_modifier_with_commented_require_not_trusted() {
    let src = r#"
contract Bridge {
    modifier onlyFake() {
        // require(msg.sender == owner);
        _;
    }
}
"#;
    assert!(
        !modifier_body_has_access_control("onlyFake", src),
        "commented-out require should not count"
    );
}

#[test]
fn modifier_with_uppercase_check_is_trusted() {
    let src = "contract Bridge {\n    modifier onlyRelayer() {\n        REQUIRE(ok);\n        _;\n    }\n}\n";
    assert!(modifier_body_has_access_control("onlyRelayer", src));
}

#[test]
fn modifier_with_unclosed_body_is_trusted() {
    let src = "contract Bridge {\n    modifier onlyRelayer() {\n        _;\n";
    assert!(modifier_body_has_access_control("onlyRelayer", src));
}

#[test]
fn modifier_with_nested_block_uses_whole_body() {
    let src = "modifier guarded() {\n    { x = 1; }\n    assert(ok);\n    _;\n}\n";
    assert!(modifier_body_has_access_control("guarded", src));
    let src2 = "modifier guarded() {\n    { x = 1; }\n}\nrequire(ok);\n";
    assert!(!modifier_body_has_access_control("guarded", src2));
}

#[test]
fn bridge_contract_is_recognised_case_insensitively() {
    let detector = TokenMintingDetector::new();
    assert!(detector.is_bridge_contract(&context("contract CrossChainRELAY {}", Vec::new())));
    assert!(detector.is_bridge_contract(&context("contract MyBRIDGE {}", Vec::new())));
    assert!(!detector.is_bridge_contract(&context("contract Vault {}", Vec::new())));
}

#[test]
fn unrestricted_mint_reported_once() {
    let detector = TokenMintingDetector::new();
    let src = "contract Bridge {\n    function mint(address to, uint256 amount) external {\n        _mint(to, amount);\n    }\n}\n";
    let ctx = context(src, vec![function("mint", 1, 3, Visibility::External, Vec::new())]);
    let findings = detector.detect(&ctx);
    assert_eq!(findings.len(), 1);
    let f = &findings[0];
    assert_eq!(f.message, "Unrestricted token minting in 'mint'");
    assert_eq!(f.severity, Severity::Critical);
    assert_eq!(f.detector_id.0, "bridge-token-mint-control");
    assert_eq!(f.line, 1);
    assert_eq!(f.column, 0);
    assert_eq!(f.length, 20);
    assert_eq!(f.cwe_ids, vec![284, 269]);
    assert_eq!(
        f.fix_suggestion.as_deref(),
        Some("Add access control: modifier onlyBridge { require(msg.sender == bridge); _; }")
    );
}

#[test]
fn guarded_mint_without_validation_reported() {
    let detector = TokenMintingDetector::new();
    let src = "contract Bridge {\n    function bridgeMint(uint256 amount) external {\n        require(msg.sender == bridge);\n    }\n}\n";
    let ctx = context(src, vec![function("bridgeMint", 1, 3, Visibility::Public, Vec::new())]);
    let findings = detector.detect(&ctx);
    assert_eq!(findings.len(), 1);
    assert_eq!(findings[0].message, "Missing message validation before minting in 'bridgeMint'");
}

#[test]
fn validated_mint_without_limits_reported_high() {
    let detector = TokenMintingDetector::new();
    let src = "contract Bridge {\n    function mint(bytes proof) external onlyBridge {\n        verify(proof);\n    }\n}\n";
    let ctx = context(src, vec![function("mint", 1, 3, Visibility::External, vec!["onlyBridge"])]);
    let findings = detector.detect(&ctx);
    assert_eq!(findings.len(), 1);
    assert_eq!(findings[0].message, "Missing mint amount limits in 'mint'");
    assert_eq!(findings[0].severity, Severity::High);
    assert_eq!(
        findings[0].fix_suggestion.as_deref(),
        Some("Add: require(amount <= MAX_MINT_AMOUNT);")
    );
}

#[test]
fn owner_mint_and_internal_mint_not_reported() {
    let detector = TokenMintingDetector::new();
    let src = "contract Bridge {\n    function ownerMint(uint256 amount) external onlyOwner {\n    }\n    function _mint(uint256 amount) internal {\n    }\n}\n";
    let ctx = context(
        src,
        vec![
            function("ownerMint", 1, 2, Visibility::External, vec!["onlyOwner"]),
            function("_mint", 3, 4, Visibility::Internal, Vec::new()),
        ],
    );
    assert!(detector.detect(&ctx).is_empty());
}

#[test]
fn commented_require_in_function_does_not_guard() {
    let detector = TokenMintingDetector::new();
    let src = "contract Bridge {\n    function mint(uint256 amount) external {\n        // require(msg.sender == bridge);\n    }\n}\n";
    let ctx = context(src, vec![function("mint", 1, 3, Visibility::External, Vec::new())]);
    let issues = detector.check_function(&ctx.functions[0], &ctx);
    assert_eq!(issues.len(), 1);
    assert_eq!(issues[0].0, "Unrestricted token minting in 'mint'");
}

#[test]
fn non_bridge_contract_not_reported() {
    let detector = TokenMintingDetector::new();
    let src = "contract Token {\n    function mint(uint256 amount) external {\n    }\n}\n";
    let ctx = context(src, vec![function("mint", 1, 2, Visibility::External, Vec::new())]);
    assert!(detector.detect(&ctx).is_empty());
}

#[test]
fn non_mint_function_has_no_issues() {
    let detector = TokenMintingDetector::new();
    let src = "contract Bridge {\n    function deposit(uint256 amount) external {\n    }\n}\n";
    let ctx = context(src, vec![function("deposit", 1, 2, Visibility::External, Vec::new())]);
    assert!(detector.check_function(&ctx.functions[0], &ctx).is_empty());
}

#[test]
fn function_outside_the_file_has_empty_source() {
    let detector = TokenMintingDetector::new();
    let src = "contract Bridge {}";
    let ctx = context(src, vec![function("mint", 7, 9, Visibility::External, Vec::new())]);
    assert!(detector.get_function_source(&ctx.functions[0], &ctx).is_empty());
    let findings = detector.detect(&ctx);
    assert_eq!(findings.len(), 1);
    assert_eq!(findings[0].message, "Unrestricted token minting in 'mint'");
}

#[test]
fn crlf_modifier_body_with_comment() {
    let src = "contract Bridge {\r\n    modifier onlyX() {\r\n        // require(msg.sender == a);\r\n        _;\r\n    }\r\n}\r\n";
    assert!(!modifier_body_has_access_control("onlyX", src));
}

#[test]
fn mint_try_detect_refuses_reversed_span_only_where_read() {
    let detector = TokenMintingDetector::new();
    let src = "contract Bridge {\n    a\n    b\n    c\n}\n";
    let ctx = context(src, vec![function("mint", 3, 0, Visibility::External, Vec::new())]);
    assert!(detector.try_detect(&ctx).is_none());
    let ctx2 = context(src, vec![function("deposit", 3, 0, Visibility::External, Vec::new())]);
    assert_eq!(detector.try_detect(&ctx2).map(|v| v.len()), Some(0));
    let ctx3 = context("contract Vault {\n a\n b\n c\n}\n", vec![function("mint", 3, 0, Visibility::External, Vec::new())]);
    assert_eq!(detector.try_detect(&ctx3).map(|v| v.len()), Some(0));
    let ctx4 = context(src, vec![function("mint", 1, 3, Visibility::External, Vec::new())]);
    assert_eq!(detector.try_detect(&ctx4).map(|v| v.len()), Some(1));
}
