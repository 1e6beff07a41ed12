//! Delegatecall operations whose target address is controlled by user
//! input, allowing arbitrary code execution in the contract's storage
//! context (CWE-829).
//!
//! Proxy and Diamond (EIP-2535) contracts, functions guarded by an access
//! check, and owner-managed storage lookups where the user only controls the
//! index or key are not reported.
use vstd::prelude::*;

use crate::ast::{Function, Parameter};
use crate::detector::{
    body_spans_fit, body_spans_ok, function_span_ok, plain_function_source, AnalysisContext, BaseDetector, DetectorCategory, DetectorId, Finding, FindingView, Severity,
    finding_view, finding_views,
};
use crate::text::{
    byte_len_u32, byte_length, chars_of, concat3, contains, contains_chars, first_lines,
    has_substring, head_lines_spaced, join_with, joined_chars, lines, lowercase, occurs_at,
    span_ok, span_text, starts_with, to_lowercase, trim_start, trimmed_starts_with,
};

verus! {

// ---------------------------------------------------------------------------
// Contract-level exemption
// ---------------------------------------------------------------------------

/// The contract's source `src` (and its lowercased form `lower`) shows the
/// Diamond pattern: a diamond cut together with a loupe, diamond storage
/// together with a facet mapping, or a `Diamond` contract with a cut or a
/// loupe.
pub open spec fn diamond_spec(src: Seq<char>, lower: Seq<char>) -> bool {
    let has_diamond_cut = has_substring(src, "diamondCut"@) || has_substring(src, "DiamondCut"@)
        || has_substring(src, "IDiamondCut"@);
    let has_diamond_loupe = has_substring(src, "DiamondLoupe"@) || has_substring(
        src,
        "IDiamondLoupe"@,
    ) || has_substring(src, "facets()"@) || has_substring(src, "facetAddress("@);
    let has_facet_mapping = has_substring(lower, "facets"@) && (has_substring(lower, "mapping"@)
        || has_substring(lower, "selectortoface"@));
    let has_diamond_storage = has_substring(src, "DiamondStorage"@) || has_substring(
        src,
        "DIAMOND_STORAGE_POSITION"@,
    ) || has_substring(src, "keccak256(\"diamond.standard."@);
    let has_diamond_inheritance = has_substring(src, "Diamond"@) && (has_substring(src, "is "@)
        || has_substring(src, "contract Diamond"@));
    ||| (has_diamond_cut && has_diamond_loupe)
    ||| (has_diamond_storage && has_facet_mapping)
    ||| (has_diamond_inheritance && (has_diamond_cut || has_diamond_loupe))
}

/// Whether the source `src`, with its lowercased form `lower`, shows the
/// Diamond pattern (see `diamond_spec`).
pub fn shows_diamond_pattern(src: &Vec<char>, lower: &Vec<char>) -> (r: bool)
    ensures
        r == diamond_spec(src@, lower@),
{
    let has_diamond_cut = contains(src, "diamondCut") || contains(src, "DiamondCut") || contains(
        src,
        "IDiamondCut",
    );
    let has_diamond_loupe = contains(src, "DiamondLoupe") || contains(src, "IDiamondLoupe")
        || contains(src, "facets()") || contains(src, "facetAddress(");
    let has_facet_mapping = contains(lower, "facets") && (contains(lower, "mapping") || contains(
        lower,
        "selectortoface",
    ));
    let has_diamond_storage = contains(src, "DiamondStorage") || contains(
        src,
        "DIAMOND_STORAGE_POSITION",
    ) || contains(src, "keccak256(\"diamond.standard.");
    let has_diamond_inheritance = contains(src, "Diamond") && (contains(src, "is ") || contains(
        src,
        "contract Diamond",
    ));
    (has_diamond_cut && has_diamond_loupe) || (has_diamond_storage && has_facet_mapping) || (
    has_diamond_inheritance && (has_diamond_cut || has_diamond_loupe))
}

// ---------------------------------------------------------------------------
// Function-level patterns (on the function's source text)
// ---------------------------------------------------------------------------

/// The function source `fs` reads the delegatecall target from storage that
/// the owner manages (the contract's source `cs` shows owner-only setters):
/// an array indexed by the caller, or a library/implementation/facet/module
/// mapping.
pub open spec fn owner_managed_lookup_spec(fs: Seq<char>, cs: Seq<char>) -> bool {
    let has_array_lookup = has_substring(fs, "[index]"@) || has_substring(fs, "[_index]"@)
        || has_substring(fs, "[idx]"@) || has_substring(fs, "[i]"@);
    let owner_only = has_substring(cs, "onlyOwner"@) || has_substring(
        cs,
        "require(msg.sender == owner"@,
    ) || has_substring(cs, "onlyAdmin"@);
    let has_owner_managed_push = (has_substring(cs, ".push("@) || has_substring(
        cs,
        "libraries["@,
    ) || has_substring(cs, "approvedLibraries["@)) && owner_only;
    let has_mapping_lookup = has_substring(fs, "libraries["@) || has_substring(
        fs,
        "implementations["@,
    ) || has_substring(fs, "facets["@) || has_substring(fs, "modules["@);
    ||| (has_array_lookup && has_substring(fs, "delegatecall"@) && has_owner_managed_push)
    ||| (has_mapping_lookup && has_substring(fs, "delegatecall"@) && owner_only)
}

/// The function source `fs` delegatecalls through `msg.sender`.
pub open spec fn indirect_target_spec(fs: Seq<char>) -> bool {
    has_substring(fs, "msg.sender.delegatecall"@) || has_substring(
        fs,
        "msg.sender).delegatecall"@,
    )
}

/// A lowercased type rendering that mentions `address`.
pub open spec fn address_type_spec(lower: Seq<char>) -> bool {
    has_substring(lower, "address"@)
}

/// Whether the lowercased type rendering `lower` mentions `address`.
pub fn names_address_type(lower: &Vec<char>) -> (r: bool)
    ensures
        r == address_type_spec(lower@),
{
    contains(lower, "address")
}

/// The parameter `p` is a named address parameter that the function source
/// `fs` delegatecalls to, passes to `delegatecall(`, or assigns (`= p`) in a
/// function that delegatecalls.
pub open spec fn param_targets_delegatecall(p: Parameter, fs: Seq<char>) -> bool {
    match p.name {
        None => false,
        Some(n) => {
            &&& address_type_spec(lowercase(p.type_text@))
            &&& {
                ||| has_substring(fs, n@ + ".delegatecall"@)
                ||| has_substring(fs, "delegatecall("@ + n@)
                ||| (has_substring(fs, "= "@ + n@) && has_substring(fs, "delegatecall"@))
            }
        },
    }
}

/// The signature area (the first lines of the function source joined with
/// spaces) declares an implementation, target, recipient or library
/// address parameter.
pub open spec fn signature_names_target(sig: Seq<char>) -> bool {
    ||| has_substring(sig, "address _implementation"@)
    ||| has_substring(sig, "address implementation"@)
    ||| has_substring(sig, "address target"@)
    ||| has_substring(sig, "address _target"@)
    ||| has_substring(sig, "address to"@)
    ||| has_substring(sig, "address _to"@)
    ||| has_substring(sig, "address lib"@)
    ||| has_substring(sig, "address _lib"@)
    ||| has_substring(sig, "address customLib"@)
}

/// The delegatecall target of `f`, whose source is `fs`, comes directly
/// from an address parameter.
pub open spec fn direct_param_spec(fs: Seq<char>, f: Function) -> bool {
    ||| exists|i: int|
        0 <= i < f.parameters@.len() && param_targets_delegatecall(#[trigger] f.parameters@[i], fs)
    ||| (signature_names_target(join_with(first_lines(lines(fs), 5), ' ')) && has_substring(
        fs,
        "delegatecall"@,
    ))
}

/// The function source `fs` guards the call with an inline sender check.
pub open spec fn inline_sender_check(fs: Seq<char>) -> bool {
    ||| has_substring(fs, "require(msg.sender =="@)
    ||| has_substring(fs, "require(msg.sender=="@)
    ||| has_substring(fs, "if (msg.sender != "@)
    ||| has_substring(fs, "if(msg.sender != "@)
}

/// Why `f` (of the file `src`) is reported, if it is: it has a body, its
/// source is not a modifier definition, delegatecalls, is not guarded by an
/// access check, does not look the target up in owner-managed storage, and
/// takes the target from an address parameter or from `msg.sender`.
pub open spec fn delegatecall_risk(f: Function, src: Seq<char>) -> Option<Seq<char>> {
    let fs = plain_function_source(src, f);
    if f.body is None {
        None
    } else if starts_with(trim_start(fs), "modifier "@) {
        None
    } else if !has_substring(fs, "delegatecall"@) {
        None
    } else if f.access_modifier_guarded || inline_sender_check(fs) {
        None
    } else if owner_managed_lookup_spec(fs, src) {
        None
    } else if direct_param_spec(fs, f) {
        Some(
            "Delegatecall target comes directly from a function parameter, allowing callers to execute arbitrary code in the contract's context."@,
        )
    } else if indirect_target_spec(fs) {
        Some(
            "Delegatecall target is derived from function parameters or user input, allowing callers to specify arbitrary code to execute."@,
        )
    } else {
        None
    }
}

// ---------------------------------------------------------------------------
// The detector
// ---------------------------------------------------------------------------

/// Detects delegatecall operations whose target is controlled by user input.
pub struct DelegatecallUserControlledDetector {
    base: BaseDetector,
}

/// The finding for the function `f` with the given risk description.
pub open spec fn delegatecall_finding(base: BaseDetector, f: Function, risk: Seq<char>) -> FindingView {
    finding_view(
        base.id@,
        "Function '"@ + f.name@ + "' performs delegatecall with user-controlled target. "@ + risk
            + " This allows arbitrary code execution in the contract's storage context, enabling complete takeover and fund theft."@,
        f.name_line as u32,
        f.name_column as u32,
        byte_len_u32(f.name@),
        base.default_severity,
    ).add_cwe(829).add_cwe(494).set_fix(
        "Remove user control over delegatecall target in '"@ + f.name@
            + "'. Use a whitelist of approved addresses: mapping(address => bool) approvedTargets; Or avoid delegatecall entirely and use regular external calls."@,
    )
}

/// The findings for the functions `fs` of the file `src`, in order.
pub open spec fn delegatecall_reports(base: BaseDetector, src: Seq<char>, fs: Seq<Function>) -> Seq<
    FindingView,
>
    decreases fs.len(),
{
    if fs.len() == 0 {
        seq![]
    } else {
        delegatecall_reports(base, src, fs.drop_last()) + match delegatecall_risk(fs.last(), src) {
            Some(risk) => seq![delegatecall_finding(base, fs.last(), risk)],
            None => seq![],
        }
    }
}

/// The contract is exempt as a whole: an interface, a library, a proxy,
/// interface-only, or a Diamond.
pub open spec fn delegatecall_contract_exempt(ctx: AnalysisContext) -> bool {
    ||| ctx.traits.is_interface
    ||| ctx.traits.is_library
    ||| ctx.traits.is_proxy
    ||| ctx.traits.is_interface_only
    ||| diamond_spec(ctx.source_code@, lowercase(ctx.source_code@))
}

/// Everything the detector reports on `ctx`.
pub open spec fn delegatecall_findings(base: BaseDetector, ctx: AnalysisContext) -> Seq<
    FindingView,
> {
    if delegatecall_contract_exempt(ctx) {
        seq![]
    } else {
        delegatecall_reports(base, ctx.source_code@, ctx.functions@)
    }
}

/// The metadata the detector is made with.
pub open spec fn standard_metadata(m: BaseDetector) -> bool {
    &&& m.id@ == "delegatecall-user-controlled"@
    &&& m.name@ == "User-Controlled Delegatecall"@
    &&& m.description@
            == "Detects delegatecall operations where the target address is controlled by user input"@
    &&& m.categories@ == seq![DetectorCategory::AccessControl, DetectorCategory::Logic]
    &&& m.default_severity == Severity::Critical
    &&& m.enabled
}

impl DelegatecallUserControlledDetector {
    /// The detector's metadata.
    pub closed spec fn meta(&self) -> BaseDetector {
        self.base
    }

    /// The detector's identifier.
    pub fn id(&self) -> (r: DetectorId)
        ensures
            r@ == self.meta().id@,
    {
        self.base.copy_id()
    }

    /// The detector's name.
    pub fn name(&self) -> (r: &str)
        ensures
            r@ == self.meta().name@,
    {
        self.base.name_str()
    }

    /// The detector's description.
    pub fn description(&self) -> (r: &str)
        ensures
            r@ == self.meta().description@,
    {
        self.base.description_str()
    }

    /// The severity of the detector's findings unless a finding says
    /// otherwise.
    pub fn default_severity(&self) -> (r: Severity)
        ensures
            r == self.meta().default_severity,
    {
        self.base.default_severity
    }

    /// The detector's categories.
    pub fn categories(&self) -> (r: Vec<DetectorCategory>)
        ensures
            r@ == self.meta().categories@,
    {
        self.base.copy_categories()
    }

    /// Whether the detector is enabled.
    pub fn is_enabled(&self) -> (r: bool)
        ensures
            r == self.meta().enabled,
    {
        self.base.enabled
    }

    /// The user-controlled-delegatecall detector.
    pub fn new() -> (r: Self)
        ensures
            standard_metadata(r.meta()),
    {
        DelegatecallUserControlledDetector {
            base: BaseDetector::new(
                DetectorId(String::from_str("delegatecall-user-controlled")),
                String::from_str("User-Controlled Delegatecall"),
                String::from_str(
                    "Detects delegatecall operations where the target address is controlled by user input",
                ),
                vec![DetectorCategory::AccessControl, DetectorCategory::Logic],
                Severity::Critical,
            ),
        }
    }

    /// Whether the contract shows the Diamond pattern (see `diamond_spec`).
    pub fn is_diamond_contract(&self, ctx: &AnalysisContext) -> (r: bool)
        ensures
            r == diamond_spec(ctx.source_code@, lowercase(ctx.source_code@)),
    {
        let source = chars_of(ctx.source_code.as_str());
        let lower = to_lowercase(&source);
        shows_diamond_pattern(&source, &lower)
    }

    /// Whether the function source delegatecalls through `msg.sender`.
    pub fn is_target_user_controlled_indirect(&self, source: &Vec<char>) -> (r: bool)
        ensures
            r == indirect_target_spec(source@),
    {
        contains(source, "msg.sender.delegatecall") || contains(source, "msg.sender).delegatecall")
    }

    /// Whether the function source looks the target up in owner-managed
    /// storage (see `owner_managed_lookup_spec`).
    pub fn is_owner_managed_storage_lookup(&self, func_source: &Vec<char>, ctx: &AnalysisContext) -> (r:
        bool)
        ensures
            r == owner_managed_lookup_spec(func_source@, ctx.source_code@),
    {
        let contract_source = chars_of(ctx.source_code.as_str());
        let has_array_lookup = contains(func_source, "[index]") || contains(func_source, "[_index]")
            || contains(func_source, "[idx]") || contains(func_source, "[i]");
        if has_array_lookup && contains(func_source, "delegatecall") {
            let has_owner_managed_push = (contains(&contract_source, ".push(") || contains(
                &contract_source,
                "libraries[",
            ) || contains(&contract_source, "approvedLibraries[")) && (contains(
                &contract_source,
                "onlyOwner",
            ) || contains(&contract_source, "require(msg.sender == owner") || contains(
                &contract_source,
                "onlyAdmin",
            ));
            if has_owner_managed_push {
                return true;
            }
        }
        let has_mapping_lookup = contains(func_source, "libraries[") || contains(
            func_source,
            "implementations[",
        ) || contains(func_source, "facets[") || contains(func_source, "modules[");
        if has_mapping_lookup && contains(func_source, "delegatecall") {
            let has_owner_managed_setter = contains(&contract_source, "onlyOwner") || contains(
                &contract_source,
                "require(msg.sender == owner",
            ) || contains(&contract_source, "onlyAdmin");
            if has_owner_managed_setter {
                return true;
            }
        }
        false
    }

    /// Whether `param` is an address parameter that the function source
    /// delegatecalls to (see `param_targets_delegatecall`).
    fn param_is_delegatecall_target(&self, param: &Parameter, source: &Vec<char>) -> (r: bool)
        ensures
            r == param_targets_delegatecall(*param, source@),
    {
        match &param.name {
            None => false,
            Some(param_name) => {
                if !names_address_type(&to_lowercase(&chars_of(param.type_text.as_str()))) {
                    return false;
                }
                let p = param_name.as_str();
                if contains_chars(source, &joined_chars(p, ".delegatecall")) || contains_chars(
                    source,
                    &joined_chars("delegatecall(", p),
                ) {
                    return true;
                }
                contains_chars(source, &joined_chars("= ", p)) && contains(source, "delegatecall")
            },
        }
    }

    /// Whether the delegatecall target comes directly from an address
    /// parameter (see `direct_param_spec`).
    pub fn is_direct_address_param_delegatecall(&self, source: &Vec<char>, function: &Function) -> (r:
        bool)
        ensures
            r == direct_param_spec(source@, *function),
    {
        let mut i: usize = 0;
        while i < function.parameters.len()
            invariant
                i <= function.parameters@.len(),
                forall|j: int|
                    0 <= j < i ==> !param_targets_delegatecall(
                        #[trigger] function.parameters@[j],
                        source@,
                    ),
            decreases function.parameters@.len() - i,
        {
            if self.param_is_delegatecall_target(&function.parameters[i], source) {
                assert(param_targets_delegatecall(function.parameters@[i as int], source@));
                return true;
            }
            i = i + 1;
        }
        let sig_area = head_lines_spaced(source);
        (contains(&sig_area, "address _implementation") || contains(
            &sig_area,
            "address implementation",
        ) || contains(&sig_area, "address target") || contains(&sig_area, "address _target")
            || contains(&sig_area, "address to") || contains(&sig_area, "address _to") || contains(
            &sig_area,
            "address lib",
        ) || contains(&sig_area, "address _lib") || contains(&sig_area, "address customLib"))
            && contains(source, "delegatecall")
    }

    /// The source of `function`: its lines joined with `'\n'`.
    pub fn get_function_source(&self, function: &Function, ctx: &AnalysisContext) -> (r: Vec<
        char,
    >)
        requires
            span_ok(ctx.source_code@, function.start_line as int, function.end_line as int),
        ensures
            r@ == plain_function_source(ctx.source_code@, *function),
    {
        span_text(
            &chars_of(ctx.source_code.as_str()),
            function.start_line,
            function.end_line,
            false,
        )
    }

    /// Why `function` is reported, if it is (see `delegatecall_risk`). The
    /// source of a function with a body is read, so its span must be well
    /// formed.
    pub fn has_user_controlled_delegatecall(&self, function: &Function, ctx: &AnalysisContext) -> (r:
        Option<String>)
        requires
            function.body is Some ==> span_ok(
                ctx.source_code@,
                function.start_line as int,
                function.end_line as int,
            ),
        ensures
            r matches Some(s) ==> delegatecall_risk(*function, ctx.source_code@) == Some(s@),
            r is None ==> delegatecall_risk(*function, ctx.source_code@) is None,
    {
        if function.body.is_none() {
            return None;
        }
        let func_source = self.get_function_source(function, ctx);
        if trimmed_starts_with(&func_source, "modifier ") {
            return None;
        }
        if !contains(&func_source, "delegatecall") {
            return None;
        }
        if function.access_modifier_guarded || contains(&func_source, "require(msg.sender ==")
            || contains(&func_source, "require(msg.sender==") || contains(
            &func_source,
            "if (msg.sender != ",
        ) || contains(&func_source, "if(msg.sender != ") {
            return None;
        }
        if self.is_owner_managed_storage_lookup(&func_source, ctx) {
            return None;
        }
        if self.is_direct_address_param_delegatecall(&func_source, function) {
            return Some(
                String::from_str(
                    "Delegatecall target comes directly from a function parameter, allowing callers to execute arbitrary code in the contract's context.",
                ),
            );
        }
        if self.is_target_user_controlled_indirect(&func_source) {
            return Some(
                String::from_str(
                    "Delegatecall target is derived from function parameters or user input, allowing callers to specify arbitrary code to execute.",
                ),
            );
        }
        None
    }

    fn report(&self, function: &Function, risk: &String) -> (r: Finding)
        ensures
            r@ == delegatecall_finding(self.meta(), *function, risk@),
    {
        let mut message = concat3(
            "Function '",
            function.name.as_str(),
            "' performs delegatecall with user-controlled target. ",
        );
        message.append(risk.as_str());
        message.append(
            " This allows arbitrary code execution in the contract's storage context, enabling complete takeover and fund theft.",
        );
        let fix = concat3(
            "Remove user control over delegatecall target in '",
            function.name.as_str(),
            "'. Use a whitelist of approved addresses: mapping(address => bool) approvedTargets; Or avoid delegatecall entirely and use regular external calls.",
        );
        self.base.create_finding(
            message,
            function.name_line as u32,
            function.name_column as u32,
            byte_length(&function.name),
        ).with_cwe(829).with_cwe(494).with_fix_suggestion(fix)
    }

    /// The findings of this detector on `ctx` (see `delegatecall_findings`),
    /// before the project-wide false-positive filter, which this library does
    /// not apply. The source of every function with a body is read unless
    /// the contract is exempt, so those spans must be well formed.
    pub fn detect(&self, ctx: &AnalysisContext) -> (r: Vec<Finding>)
        requires
            !delegatecall_contract_exempt(*ctx) ==> body_spans_ok(*ctx),
        ensures
            finding_views(r@) == delegatecall_findings(self.meta(), *ctx),
    {
        let mut findings: Vec<Finding> = Vec::new();
        assert(finding_views(findings@) =~= seq![]);
        if ctx.traits.is_interface || ctx.traits.is_library || ctx.traits.is_proxy
            || ctx.traits.is_interface_only {
            return findings;
        }
        if self.is_diamond_contract(ctx) {
            return findings;
        }
        assert(body_spans_ok(*ctx));
        let mut i: usize = 0;
        assert(ctx.functions@.take(0) =~= seq![]);
        while i < ctx.functions.len()
            invariant
                i <= ctx.functions@.len(),
                body_spans_ok(*ctx),
                finding_views(findings@) == delegatecall_reports(
                    self.meta(),
                    ctx.source_code@,
                    ctx.functions@.take(i as int),
                ),
            decreases ctx.functions@.len() - i,
        {
            let function = &ctx.functions[i];
            let ghost prev = finding_views(findings@);
            proof {
                assert(ctx.functions@.take(i + 1).drop_last() =~= ctx.functions@.take(i as int));
                if ctx.functions@[i as int].body is Some {
                    assert(function_span_ok(ctx.source_code@, ctx.functions@[i as int]));
                }
            }
            match self.has_user_controlled_delegatecall(function, ctx) {
                Some(risk) => {
                    let f = self.report(function, &risk);
                    findings.push(f);
                    assert(finding_views(findings@) =~= prev.push(f@));
                },
                None => {
                    assert(finding_views(findings@) =~= prev + Seq::<FindingView>::empty());
                },
            }
            i = i + 1;
        }
        assert(ctx.functions@.take(i as int) =~= ctx.functions@);
        findings
    }

    /// The findings of this detector on `ctx` (see `detect`), or none when
    /// the source of a function that would be read has a reversed line span.
    pub fn try_detect(&self, ctx: &AnalysisContext) -> (r: Option<Vec<Finding>>)
        ensures
            r is Some <==> (!delegatecall_contract_exempt(*ctx) ==> body_spans_ok(*ctx)),
            r matches Some(v) ==> finding_views(v@) == delegatecall_findings(self.meta(), *ctx),
    {
        let exempt = ctx.traits.is_interface || ctx.traits.is_library || ctx.traits.is_proxy
            || ctx.traits.is_interface_only || self.is_diamond_contract(ctx);
        if exempt || body_spans_fit(ctx) {
            Some(self.detect(ctx))
        } else {
            None
        }
    }
}

// ---------------------------------------------------------------------------
// Laws
// ---------------------------------------------------------------------------

proof fn lemma_reports_carry_id(base: BaseDetector, src: Seq<char>, fs: Seq<Function>)
    ensures
        forall|k: int|
            0 <= k < delegatecall_reports(base, src, fs).len() ==> (#[trigger] delegatecall_reports(
                base,
                src,
                fs,
            )[k]).detector_id == base.id@,
    decreases fs.len(),
{
    if fs.len() > 0 {
        lemma_reports_carry_id(base, src, fs.drop_last());
    }
}

/// Every finding of the detector carries the detector's identifier.
pub proof fn law_findings_carry_detector_id(
    d: DelegatecallUserControlledDetector,
    ctx: AnalysisContext,
)
    ensures
        forall|k: int|
            0 <= k < delegatecall_findings(d.meta(), ctx).len() ==> (
            #[trigger] delegatecall_findings(d.meta(), ctx)[k]).detector_id == d.meta().id@,
{
    lemma_reports_carry_id(d.meta(), ctx.source_code@, ctx.functions@);
}

/// Interfaces, libraries, proxies, interface-only contracts and Diamond
/// contracts get no findings.
pub proof fn law_exempt_contracts_not_reported(
    d: DelegatecallUserControlledDetector,
    ctx: AnalysisContext,
)
    requires
        delegatecall_contract_exempt(ctx),
    ensures
        delegatecall_findings(d.meta(), ctx) == Seq::<FindingView>::empty(),
{
}

/// A function that does not delegatecall, that guards itself with an
/// access-control modifier or an inline `msg.sender` check, or that looks the
/// target up in owner-managed storage, is never reported.
pub proof fn law_guarded_functions_not_reported(f: Function, src: Seq<char>)
    requires
        ({
            let fs = plain_function_source(src, f);
            ||| !has_substring(fs, "delegatecall"@)
            ||| f.access_modifier_guarded
            ||| inline_sender_check(fs)
            ||| owner_managed_lookup_spec(fs, src)
        }),
    ensures
        delegatecall_risk(f, src) is None,
{
}

/// A function with a body, not a modifier, unguarded and not looking the
/// target up in owner-managed storage, that delegatecalls to one of its
/// address parameters is reported as taking the target from a parameter.
pub proof fn law_parameter_target_reported(f: Function, src: Seq<char>, i: int)
    requires
        f.body is Some,
        0 <= i < f.parameters@.len(),
        ({
            let fs = plain_function_source(src, f);
            &&& !starts_with(trim_start(fs), "modifier "@)
            &&& !f.access_modifier_guarded
            &&& !inline_sender_check(fs)
            &&& !owner_managed_lookup_spec(fs, src)
            &&& param_targets_delegatecall(f.parameters@[i], fs)
        }),
    ensures
        delegatecall_risk(f, src) == Some(
            "Delegatecall target comes directly from a function parameter, allowing callers to execute arbitrary code in the contract's context."@,
        ),
{
    let fs = plain_function_source(src, f);
    let p = f.parameters@[i];
    let n = p.name->0;
    reveal_strlit(".delegatecall");
    reveal_strlit("delegatecall(");
    reveal_strlit("delegatecall");
    let a = n@ + ".delegatecall"@;
    let b = "delegatecall("@ + n@;
    assert(a.subrange(n@.len() + 1int, n@.len() + 13int) =~= "delegatecall"@);
    assert(b.subrange(0, 12) =~= "delegatecall"@);
    if has_substring(fs, n@ + ".delegatecall"@) {
        let w = choose|w: int| occurs_at(fs, n@ + ".delegatecall"@, w);
        lemma_substring_within(fs, n@ + ".delegatecall"@, w, n@.len() + 1int);
    } else if has_substring(fs, "delegatecall("@ + n@) {
        let w = choose|w: int| occurs_at(fs, "delegatecall("@ + n@, w);
        lemma_substring_within(fs, "delegatecall("@ + n@, w, 0);
    }
}

/// A text that contains `needle` contains every part of it; here the part
/// `"delegatecall"` at offset `k`.
proof fn lemma_substring_within(hay: Seq<char>, needle: Seq<char>, w: int, k: int)
    requires
        occurs_at(hay, needle, w),
        0 <= k,
        k + 12 <= needle.len(),
        needle.subrange(k, k + 12) == "delegatecall"@,
    ensures
        has_substring(hay, "delegatecall"@),
{
    reveal_strlit("delegatecall");
    assert(hay.subrange(w + k, w + k + 12) =~= needle.subrange(k, k + 12));
    assert(occurs_at(hay, "delegatecall"@, w + k));
}

/// A function whose source checks the caller inline, with
/// `require(msg.sender ==`, `require(msg.sender==`, `if (msg.sender != ` or
/// `if(msg.sender != `, is never reported: its delegatecall risk is none,
/// whatever its parameters and its target.
pub proof fn law_inline_sender_check_not_reported(f: Function, src: Seq<char>)
    requires
        ({
            let fs = plain_function_source(src, f);
            ||| has_substring(fs, "require(msg.sender =="@)
            ||| has_substring(fs, "require(msg.sender=="@)
            ||| has_substring(fs, "if (msg.sender != "@)
            ||| has_substring(fs, "if(msg.sender != "@)
        }),
    ensures
        delegatecall_risk(f, src) is None,
{
}

/// A function with a body, whose source is not a modifier definition, that
/// has no access-control modifier, mentions none of the inline sender
/// checks (`require(msg.sender ==`, `require(msg.sender==`,
/// `if (msg.sender != `, `if(msg.sender != `), does not look the target up
/// in owner-managed storage, and writes `p.delegatecall` or
/// `delegatecall(p`, or assigns `= p` and delegatecalls, for a named
/// parameter `p` whose lowercased type mentions `address`, is reported as
/// taking the target from a parameter.
pub proof fn law_unguarded_address_parameter_reported(f: Function, src: Seq<char>, i: int)
    requires
        f.body is Some,
        0 <= i < f.parameters@.len(),
        f.parameters@[i].name is Some,
        has_substring(lowercase(f.parameters@[i].type_text@), "address"@),
        ({
            let fs = plain_function_source(src, f);
            let n = f.parameters@[i].name->0;
            &&& !starts_with(trim_start(fs), "modifier "@)
            &&& !f.access_modifier_guarded
            &&& !has_substring(fs, "require(msg.sender =="@)
            &&& !has_substring(fs, "require(msg.sender=="@)
            &&& !has_substring(fs, "if (msg.sender != "@)
            &&& !has_substring(fs, "if(msg.sender != "@)
            &&& !owner_managed_lookup_spec(fs, src)
            &&& {
                ||| has_substring(fs, n@ + ".delegatecall"@)
                ||| has_substring(fs, "delegatecall("@ + n@)
                ||| (has_substring(fs, "= "@ + n@) && has_substring(fs, "delegatecall"@))
            }
        }),
    ensures
        delegatecall_risk(f, src) == Some(
            "Delegatecall target comes directly from a function parameter, allowing callers to execute arbitrary code in the contract's context."@,
        ),
{
    law_parameter_target_reported(f, src, i);
}

/// An unguarded function with a body, not a modifier definition, outside
/// owner-managed lookups, that delegatecalls through `msg.sender`
/// (`msg.sender.delegatecall` or `msg.sender).delegatecall`) is reported.
pub proof fn law_sender_target_reported(f: Function, src: Seq<char>)
    requires
        f.body is Some,
        ({
            let fs = plain_function_source(src, f);
            &&& !starts_with(trim_start(fs), "modifier "@)
            &&& !f.access_modifier_guarded
            &&& !has_substring(fs, "require(msg.sender =="@)
            &&& !has_substring(fs, "require(msg.sender=="@)
            &&& !has_substring(fs, "if (msg.sender != "@)
            &&& !has_substring(fs, "if(msg.sender != "@)
            &&& !owner_managed_lookup_spec(fs, src)
            &&& (has_substring(fs, "msg.sender.delegatecall"@) || has_substring(
                fs,
                "msg.sender).delegatecall"@,
            ))
        }),
    ensures
        delegatecall_risk(f, src) is Some,
{
    let fs = plain_function_source(src, f);
    reveal_strlit("msg.sender.delegatecall");
    reveal_strlit("msg.sender).delegatecall");
    reveal_strlit("delegatecall");
    if has_substring(fs, "msg.sender.delegatecall"@) {
        let w = choose|w: int| occurs_at(fs, "msg.sender.delegatecall"@, w);
        assert("msg.sender.delegatecall"@.subrange(11, 23) =~= "delegatecall"@);
        lemma_substring_within(fs, "msg.sender.delegatecall"@, w, 11);
    } else {
        let w = choose|w: int| occurs_at(fs, "msg.sender).delegatecall"@, w);
        assert("msg.sender).delegatecall"@.subrange(12, 24) =~= "delegatecall"@);
        lemma_substring_within(fs, "msg.sender).delegatecall"@, w, 12);
    }
}

/// A function that reads its delegatecall target from storage the owner
/// manages is never reported: its source indexes `libraries[`,
/// `implementations[`, `facets[` or `modules[` and delegatecalls in a
/// contract that mentions `onlyOwner`, `require(msg.sender == owner` or
/// `onlyAdmin`; or it indexes `[index]`, `[_index]`, `[idx]` or `[i]` and
/// delegatecalls in such a contract that also mentions `.push(`,
/// `libraries[` or `approvedLibraries[`.
pub proof fn law_owner_managed_lookup_not_reported(f: Function, src: Seq<char>)
    requires
        ({
            let fs = plain_function_source(src, f);
            let owner_only = has_substring(src, "onlyOwner"@) || has_substring(
                src,
                "require(msg.sender == owner"@,
            ) || has_substring(src, "onlyAdmin"@);
            let mapping = has_substring(fs, "libraries["@) || has_substring(
                fs,
                "implementations["@,
            ) || has_substring(fs, "facets["@) || has_substring(fs, "modules["@);
            let array = has_substring(fs, "[index]"@) || has_substring(fs, "[_index]"@)
                || has_substring(fs, "[idx]"@) || has_substring(fs, "[i]"@);
            let push = has_substring(src, ".push("@) || has_substring(src, "libraries["@)
                || has_substring(src, "approvedLibraries["@);
            &&& has_substring(fs, "delegatecall"@)
            &&& owner_only
            &&& (mapping || (array && push))
        }),
    ensures
        delegatecall_risk(f, src) is None,
{
}

/// An unguarded function with a body, not a modifier definition, outside
/// owner-managed lookups, whose first five lines (joined with spaces)
/// declare `address _implementation`, `address implementation`,
/// `address target`, `address _target`, `address to`, `address _to`,
/// `address lib`, `address _lib` or `address customLib`, and that
/// delegatecalls, is reported as taking the target from a parameter.
pub proof fn law_signature_target_reported(f: Function, src: Seq<char>)
    requires
        f.body is Some,
        ({
            let fs = plain_function_source(src, f);
            let sig = join_with(first_lines(lines(fs), 5), ' ');
            &&& !starts_with(trim_start(fs), "modifier "@)
            &&& !f.access_modifier_guarded
            &&& !has_substring(fs, "require(msg.sender =="@)
            &&& !has_substring(fs, "require(msg.sender=="@)
            &&& !has_substring(fs, "if (msg.sender != "@)
            &&& !has_substring(fs, "if(msg.sender != "@)
            &&& !owner_managed_lookup_spec(fs, src)
            &&& has_substring(fs, "delegatecall"@)
            &&& {
                ||| has_substring(sig, "address _implementation"@)
                ||| has_substring(sig, "address implementation"@)
                ||| has_substring(sig, "address target"@)
                ||| has_substring(sig, "address _target"@)
                ||| has_substring(sig, "address to"@)
                ||| has_substring(sig, "address _to"@)
                ||| has_substring(sig, "address lib"@)
                ||| has_substring(sig, "address _lib"@)
                ||| has_substring(sig, "address customLib"@)
            }
        }),
    ensures
        delegatecall_risk(f, src) == Some(
            "Delegatecall target comes directly from a function parameter, allowing callers to execute arbitrary code in the contract's context."@,
        ),
{
}

/// The detector reports nothing on interfaces, libraries, proxies,
/// interface-only contracts and Diamond contracts (a diamond cut
/// (`diamondCut`, `DiamondCut`, `IDiamondCut`) with a loupe
/// (`DiamondLoupe`, `IDiamondLoupe`, `facets()`, `facetAddress(`); diamond
/// storage (`DiamondStorage`, `DIAMOND_STORAGE_POSITION`,
/// `keccak256("diamond.standard.`) with a lowercased `facets` and `mapping`
/// or `selectortoface`; or `Diamond` with `is ` or `contract Diamond`,
/// and a cut or a loupe); on every other contract it reports the risk of
/// every function.
pub proof fn law_delegatecall_exemptions(d: DelegatecallUserControlledDetector, ctx: AnalysisContext)
    ensures
        ({
            let src = ctx.source_code@;
            let lower = lowercase(src);
            let cut = has_substring(src, "diamondCut"@) || has_substring(src, "DiamondCut"@)
                || has_substring(src, "IDiamondCut"@);
            let loupe = has_substring(src, "DiamondLoupe"@) || has_substring(src, "IDiamondLoupe"@)
                || has_substring(src, "facets()"@) || has_substring(src, "facetAddress("@);
            let storage = has_substring(src, "DiamondStorage"@) || has_substring(
                src,
                "DIAMOND_STORAGE_POSITION"@,
            ) || has_substring(src, "keccak256(\"diamond.standard."@);
            let facet_mapping = has_substring(lower, "facets"@) && (has_substring(lower, "mapping"@)
                || has_substring(lower, "selectortoface"@));
            let inherits = has_substring(src, "Diamond"@) && (has_substring(src, "is "@)
                || has_substring(src, "contract Diamond"@));
            let exempt = {
                ||| ctx.traits.is_interface
                ||| ctx.traits.is_library
                ||| ctx.traits.is_proxy
                ||| ctx.traits.is_interface_only
                ||| (cut && loupe)
                ||| (storage && facet_mapping)
                ||| (inherits && (cut || loupe))
            };
            delegatecall_findings(d.meta(), ctx) == if exempt {
                Seq::<FindingView>::empty()
            } else {
                delegatecall_reports(d.meta(), src, ctx.functions@)
            }
        }),
{
}

/// A function without a body, one whose source (after leading whitespace)
/// is a modifier definition, and one whose source never mentions
/// `delegatecall` is never reported.
pub proof fn law_non_delegating_not_reported(f: Function, src: Seq<char>)
    requires
        ({
            let fs = plain_function_source(src, f);
            ||| f.body is None
            ||| starts_with(trim_start(fs), "modifier "@)
            ||| !has_substring(fs, "delegatecall"@)
        }),
    ensures
        delegatecall_risk(f, src) is None,
{
}

impl Default for DelegatecallUserControlledDetector {
    /// The same detector as `new` gives.
    fn default() -> (r: Self)
        ensures
            standard_metadata(r.meta()),
    {
        Self::new()
    }
}

} // verus!
