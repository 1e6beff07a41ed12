//! Unsafe token minting in bridge contracts: mint functions without access
//! control, without message validation, or without amount limits.
use vstd::prelude::*;

use crate::ast::{Function, Visibility};
use crate::detector::{
    function_span_ok, line_count, span_fits, AnalysisContext, BaseDetector, DetectorCategory, DetectorId, Finding, FindingView, Severity,
    finding_view, finding_views,
};
use crate::text::{
    append_chars, chars_of, comment_free, concat3, contains, find, first_occurrence,
    has_substring, join_range, lemma_first_occurrence_unique, line_span, lines, lowercase,
    slice_of, span_ok, span_text, split_lines, suffix_from, texts, to_lowercase,
};

verus! {

// ---------------------------------------------------------------------------
// Modifier bodies
// ---------------------------------------------------------------------------

/// The change of brace depth one character makes.
pub open spec fn brace_step(c: char) -> int {
    if c == '{' {
        1
    } else if c == '}' {
        -1
    } else {
        0
    }
}

/// Opening braces minus closing braces in `t`.
pub open spec fn brace_balance(t: Seq<char>) -> int
    decreases t.len(),
{
    if t.len() == 0 {
        0
    } else {
        brace_balance(t.drop_last()) + brace_step(t.last())
    }
}

/// The brace depth after `s[from..=k]`, for a text that starts inside one
/// open brace at `from`.
pub open spec fn depth_after(s: Seq<char>, from: int, k: int) -> int {
    1 + brace_balance(s.subrange(from, k + 1))
}

/// The brace open before `from` is closed by `s[j]`: the depth first
/// reaches zero there.
pub open spec fn closes_at(s: Seq<char>, from: int, j: int) -> bool {
    &&& from <= j < s.len()
    &&& depth_after(s, from, j) == 0
    &&& forall|k: int| from <= k < j ==> depth_after(s, from, k) > 0
}

/// The body of the modifier `name` in `src`: the text after the first `{`
/// that follows the first occurrence of `modifier <name>`, up to (not
/// including) the brace that closes it; none when any of the three is
/// missing.
pub open spec fn modifier_body(name: Seq<char>, src: Seq<char>) -> Option<Seq<char>> {
    let needle = "modifier "@ + name;
    match first_occurrence(src, needle) {
        None => None,
        Some(start) => match first_occurrence(src.skip(start + needle.len()), seq!['{']) {
            None => None,
            Some(off) => {
                let from = start + needle.len() + off + 1;
                if exists|j: int| closes_at(src, from, j) {
                    Some(src.subrange(from, choose|j: int| closes_at(src, from, j)))
                } else {
                    None
                }
            },
        },
    }
}

/// The lowercased, comment-free text of a modifier body enforces access:
/// it requires, reverts, asserts, branches, reads `msg.sender`, or calls an
/// OpenZeppelin role or owner check.
pub open spec fn access_check_spec(lower: Seq<char>) -> bool {
    ||| has_substring(lower, "require("@)
    ||| has_substring(lower, "revert("@)
    ||| has_substring(lower, "revert "@)
    ||| has_substring(lower, "msg.sender"@)
    ||| has_substring(lower, "if ("@)
    ||| has_substring(lower, "if("@)
    ||| has_substring(lower, "assert("@)
    ||| has_substring(lower, "_checkrole"@)
    ||| has_substring(lower, "_checkowner"@)
}

/// The modifier `name` counts as access control in `src`: its definition
/// is not found there (it is taken to be inherited), or its body, without
/// `//` comments and lowercased, enforces access.
pub open spec fn modifier_enforces_access_spec(name: Seq<char>, src: Seq<char>) -> bool {
    match modifier_body(name, src) {
        None => true,
        Some(body) => access_check_spec(lowercase(comment_free(lines(body)))),
    }
}

proof fn lemma_closes_at_unique(s: Seq<char>, from: int, j: int)
    requires
        closes_at(s, from, j),
    ensures
        (choose|k: int| closes_at(s, from, k)) == j,
{
    let k = choose|k: int| closes_at(s, from, k);
    assert(closes_at(s, from, k));
    if k < j {
        assert(depth_after(s, from, k) > 0);
    }
    if j < k {
        assert(depth_after(s, from, j) > 0);
    }
}

proof fn lemma_depth_step(s: Seq<char>, from: int, k: int)
    requires
        0 <= from <= k < s.len(),
    ensures
        depth_after(s, from, k) == 1 + brace_balance(s.subrange(from, k)) + brace_step(s[k]),
{
    let t = s.subrange(from, k + 1);
    assert(t.drop_last() =~= s.subrange(from, k));
    assert(t.last() == s[k]);
}

/// Whether the lowercased text `lower` enforces access (see
/// `access_check_spec`).
pub fn mentions_access_check(lower: &Vec<char>) -> (r: bool)
    ensures
        r == access_check_spec(lower@),
{
    contains(lower, "require(") || contains(lower, "revert(") || contains(lower, "revert ")
        || contains(lower, "msg.sender") || contains(lower, "if (") || contains(lower, "if(")
        || contains(lower, "assert(") || contains(lower, "_checkrole") || contains(
        lower,
        "_checkowner",
    )
}

/// Whether the modifier `name` counts as access control in `src` (see
/// `modifier_enforces_access_spec`).
pub fn modifier_body_has_access_control(name: &str, src: &str) -> (r: bool)
    ensures
        r == modifier_enforces_access_spec(name@, src@),
        !has_substring(src@, "modifier "@ + name@) ==> r,
{
    let s = chars_of(src);
    let n = s.len();
    let mut needle = chars_of("modifier ");
    append_chars(&mut needle, &chars_of(name));
    let ghost nd = "modifier "@ + name@;
    assert(needle@ == nd);
    let start = match find(&s, &needle) {
        None => {
            return true;
        },
        Some(p) => p,
    };
    let name_end = start + needle.len();
    let after = suffix_from(&s, name_end);
    let brace = chars_of("{");
    proof {
        reveal_strlit("{");
        assert(brace@ =~= seq!['{']);
    }
    let off = match find(&after, &brace) {
        None => {
            return true;
        },
        Some(o) => o,
    };
    let body_start = name_end + off + 1;
    let ghost from = body_start as int;
    let mut depth: usize = 1;
    let mut idx: usize = body_start;
    let mut closed = false;
    assert(s@.subrange(from, from) =~= Seq::<char>::empty());
    while idx < n && !closed
        invariant
            n == s@.len(),
            1 <= from <= idx <= n,
            body_start == from,
            closed ==> depth == 0 && idx < n && closes_at(s@, from, idx as int),
            !closed ==> {
                &&& depth >= 1
                &&& depth <= 1 + idx - from
                &&& depth == 1 + brace_balance(s@.subrange(from, idx as int))
                &&& forall|k: int| from <= k < idx ==> depth_after(s@, from, k) > 0
            },
        decreases 2 * (n - idx) + if closed { 0int } else { 1int },
    {
        proof {
            lemma_depth_step(s@, from, idx as int);
        }
        if s[idx] == '{' {
            depth = depth + 1;
        } else if s[idx] == '}' {
            depth = depth - 1;
        }
        if depth == 0 {
            closed = true;
        } else {
            idx = idx + 1;
            assert(s@.subrange(from, idx as int) =~= s@.subrange(from, idx - 1 + 1));
        }
    }
    proof {
        lemma_first_occurrence_unique(s@, nd, start as int);
        assert(after@ == s@.skip(start + nd.len()));
        lemma_first_occurrence_unique(after@, seq!['{'], off as int);
    }
    if !closed {
        assert(!exists|j: int| closes_at(s@, from, j)) by {
            assert forall|j: int| !closes_at(s@, from, j) by {
                if from <= j < s@.len() {
                    assert(depth_after(s@, from, j) > 0);
                }
            }
        }
        return true;
    }
    proof {
        lemma_closes_at_unique(s@, from, idx as int);
    }
    let body = slice_of(&s, body_start, idx);
    let ls = split_lines(&body);
    let text = join_range(&ls, 0, ls.len(), true, '\n');
    assert(texts(ls@).subrange(0, ls@.len() as int) =~= texts(ls@));
    let lower = to_lowercase(&text);
    mentions_access_check(&lower)
}

// ---------------------------------------------------------------------------
// The detector
// ---------------------------------------------------------------------------

/// Detects unsafe token minting in bridge contracts.
pub struct TokenMintingDetector {
    base: BaseDetector,
}

/// The lowercased source of a contract mentions a bridge, a relay or
/// cross-chain messaging.
pub open spec fn bridge_text_spec(lower: Seq<char>) -> bool {
    ||| has_substring(lower, "bridge"@)
    ||| has_substring(lower, "relay"@)
    ||| has_substring(lower, "crosschain"@)
}

/// Whether the lowercased source `lower` mentions a bridge (see
/// `bridge_text_spec`).
pub fn mentions_bridge(lower: &Vec<char>) -> (r: bool)
    ensures
        r == bridge_text_spec(lower@),
{
    contains(lower, "bridge") || contains(lower, "relay") || contains(lower, "crosschain")
}

/// An issue of a mint function: title, severity and remediation.
pub type MintIssue = (String, Severity, String);

/// The model of an issue.
pub open spec fn issue_view(i: MintIssue) -> (Seq<char>, Severity, Seq<char>) {
    (i.0@, i.1, i.2@)
}

/// The source of `f` in the file `src` without `//` comments, lowercased.
pub open spec fn lowered_function_source(src: Seq<char>, f: Function) -> Seq<char> {
    lowercase(comment_free(line_span(src, f.start_line as int, f.end_line as int)))
}

/// Some modifier of `f` counts as access control in `src`.
pub open spec fn has_access_modifier(f: Function, src: Seq<char>) -> bool {
    exists|i: int|
        0 <= i < f.modifiers@.len() && modifier_enforces_access_spec(
            #[trigger] f.modifiers@[i]@,
            src,
        )
}

/// A function with the lowercased name `lname` whose lowercased source is
/// `fsrc` mints on an owner's or admin's direct order rather than on a
/// bridge message.
pub open spec fn owner_direct_mint(lname: Seq<char>, fsrc: Seq<char>) -> bool {
    ||| has_substring(lname, "owner"@)
    ||| has_substring(lname, "admin"@)
    ||| has_substring(lname, "manual"@)
    ||| {
        &&& (has_substring(fsrc, "msg.sender == owner"@) || has_substring(
            fsrc,
            "msg.sender == admin"@,
        ))
        &&& !has_substring(lname, "bridge"@)
        &&& !has_substring(lname, "relay"@)
        &&& !has_substring(lname, "receive"@)
    }
}

/// The issues of the function `f` of the file `src`, in order: a function
/// whose lowercased name mentions `mint` or `issue` and that is external or
/// public gets an unrestricted-minting issue without access control (a
/// modifier that enforces access, or `require(msg.sender`); with access
/// control, a missing-validation issue when it does not verify a message,
/// proof or signature (unless it is an owner's direct mint), and a
/// missing-limit issue when it does but mentions no `max` `amount`.
pub open spec fn mint_issues(f: Function, src: Seq<char>) -> Seq<(Seq<char>, Severity, Seq<char>)> {
    let lname = lowercase(f.name@);
    let fsrc = lowered_function_source(src, f);
    let has_access = has_access_modifier(f, src) || has_substring(fsrc, "require(msg.sender"@);
    let validates = has_substring(fsrc, "verify"@) && (has_substring(fsrc, "message"@)
        || has_substring(fsrc, "proof"@) || has_substring(fsrc, "signature"@));
    let has_limits = has_substring(fsrc, "max"@) && has_substring(fsrc, "amount"@);
    if !has_substring(lname, "mint"@) && !has_substring(lname, "issue"@) {
        seq![]
    } else if !(f.visibility == Visibility::External || f.visibility == Visibility::Public) {
        seq![]
    } else {
        (if !has_access {
            seq![
                (
                    "Unrestricted token minting in '"@ + f.name@ + "'"@,
                    Severity::Critical,
                    "Add access control: modifier onlyBridge { require(msg.sender == bridge); _; }"@,
                ),
            ]
        } else {
            seq![]
        }) + (if has_access && !validates && !owner_direct_mint(lname, fsrc) {
            seq![
                (
                    "Missing message validation before minting in '"@ + f.name@ + "'"@,
                    Severity::Critical,
                    "Add: require(verifyMessage(hash, proof)); require(!processed[hash]); processed[hash] = true;"@,
                ),
            ]
        } else {
            seq![]
        }) + (if has_access && validates && !has_limits {
            seq![
                (
                    "Missing mint amount limits in '"@ + f.name@ + "'"@,
                    Severity::High,
                    "Add: require(amount <= MAX_MINT_AMOUNT);"@,
                ),
            ]
        } else {
            seq![]
        })
    }
}

/// The finding for one issue of the function `f`.
pub open spec fn mint_finding(
    base: BaseDetector,
    f: Function,
    issue: (Seq<char>, Severity, Seq<char>),
) -> FindingView {
    finding_view(base.id@, issue.0, f.name_line as u32, 0, 20, issue.1).add_cwe(284).add_cwe(
        269,
    ).set_fix(issue.2)
}

/// The findings for the functions `fs` of the file `src`, in order.
pub open spec fn mint_reports(base: BaseDetector, src: Seq<char>, fs: Seq<Function>) -> Seq<
    FindingView,
>
    decreases fs.len(),
{
    if fs.len() == 0 {
        seq![]
    } else {
        mint_reports(base, src, fs.drop_last()) + mint_issues(fs.last(), src).map_values(
            |i: (Seq<char>, Severity, Seq<char>)| mint_finding(base, fs.last(), i),
        )
    }
}

/// `f` is a mint function whose source is read: its lowercased name
/// mentions `mint` or `issue` and it is external or public.
pub open spec fn is_checked_mint_function(f: Function) -> bool {
    &&& (has_substring(lowercase(f.name@), "mint"@) || has_substring(
        lowercase(f.name@),
        "issue"@,
    ))
    &&& (f.visibility == Visibility::External || f.visibility == Visibility::Public)
}

/// Every checked mint function has a line span that can be taken from the
/// file's source.
pub open spec fn mint_spans_ok(ctx: AnalysisContext) -> bool {
    forall|i: int|
        0 <= i < ctx.functions@.len() && is_checked_mint_function(#[trigger] ctx.functions@[i])
            ==> function_span_ok(ctx.source_code@, ctx.functions@[i])
}

/// The contract is exempt as a whole: an interface, a library, or a contract
/// whose source does not mention a bridge.
pub open spec fn mint_contract_exempt(ctx: AnalysisContext) -> bool {
    ctx.traits.is_interface || ctx.traits.is_library || !bridge_text_spec(
        lowercase(ctx.source_code@),
    )
}

/// Everything the detector reports on `ctx`: nothing for interfaces,
/// libraries and contracts that do not mention a bridge; otherwise the
/// issues of every function.
pub open spec fn mint_findings(base: BaseDetector, ctx: AnalysisContext) -> Seq<FindingView> {
    if mint_contract_exempt(ctx) {
        seq![]
    } else {
        mint_reports(base, ctx.source_code@, ctx.functions@)
    }
}

/// The metadata the detector is made with.
pub open spec fn standard_metadata(m: BaseDetector) -> bool {
    &&& m.id@ == "bridge-token-mint-control"@
    &&& m.name@ == "Bridge Token Minting Control"@
    &&& m.description@ == "Detects unsafe token minting in bridge contracts"@
    &&& m.categories@ == seq![
            DetectorCategory::CrossChain,
            DetectorCategory::AccessControl,
        ]
    &&& m.default_severity == Severity::Critical
    &&& m.enabled
}

impl TokenMintingDetector {
    /// The detector's metadata.
    pub closed spec fn meta(&self) -> BaseDetector {
        self.base
    }

    /// The detector's identifier.
    pub fn id(&self) -> (r: DetectorId)
        ensures
            r@ == self.meta().id@,
    {
        self.base.copy_id()
    }

    /// The detector's name.
    pub fn name(&self) -> (r: &str)
        ensures
            r@ == self.meta().name@,
    {
        self.base.name_str()
    }

    /// The detector's description.
    pub fn description(&self) -> (r: &str)
        ensures
            r@ == self.meta().description@,
    {
        self.base.description_str()
    }

    /// The severity of the detector's findings unless a finding says
    /// otherwise.
    pub fn default_severity(&self) -> (r: Severity)
        ensures
            r == self.meta().default_severity,
    {
        self.base.default_severity
    }

    /// The detector's categories.
    pub fn categories(&self) -> (r: Vec<DetectorCategory>)
        ensures
            r@ == self.meta().categories@,
    {
        self.base.copy_categories()
    }

    /// Whether the detector is enabled.
    pub fn is_enabled(&self) -> (r: bool)
        ensures
            r == self.meta().enabled,
    {
        self.base.enabled
    }

    /// The bridge-token-minting detector.
    pub fn new() -> (r: Self)
        ensures
            standard_metadata(r.meta()),
    {
        TokenMintingDetector {
            base: BaseDetector::new(
                DetectorId(String::from_str("bridge-token-mint-control")),
                String::from_str("Bridge Token Minting Control"),
                String::from_str("Detects unsafe token minting in bridge contracts"),
                vec![DetectorCategory::CrossChain, DetectorCategory::AccessControl],
                Severity::Critical,
            ),
        }
    }

    /// Whether the contract's source mentions a bridge, case-insensitively
    /// (see `bridge_text_spec`).
    pub fn is_bridge_contract(&self, ctx: &AnalysisContext) -> (r: bool)
        ensures
            r == bridge_text_spec(lowercase(ctx.source_code@)),
    {
        let source = to_lowercase(&chars_of(ctx.source_code.as_str()));
        mentions_bridge(&source)
    }

    /// Whether the modifier `name` counts as access control in the
    /// contract's source (see `modifier_enforces_access_spec`).
    pub fn modifier_enforces_access(&self, name: &str, ctx: &AnalysisContext) -> (r: bool)
        ensures
            r == modifier_enforces_access_spec(name@, ctx.source_code@),
    {
        modifier_body_has_access_control(name, ctx.source_code.as_str())
    }

    /// The source of `function` without `//` comments (see `comment_free`
    /// and `line_span`).
    pub fn get_function_source(&self, function: &Function, ctx: &AnalysisContext) -> (r: Vec<
        char,
    >)
        requires
            span_ok(ctx.source_code@, function.start_line as int, function.end_line as int),
        ensures
            r@ == comment_free(
                line_span(ctx.source_code@, function.start_line as int, function.end_line as int),
            ),
    {
        span_text(&chars_of(ctx.source_code.as_str()), function.start_line, function.end_line, true)
    }

    /// Whether some modifier of `function` counts as access control.
    fn any_modifier_enforces_access(&self, function: &Function, ctx: &AnalysisContext) -> (r:
        bool)
        ensures
            r == has_access_modifier(*function, ctx.source_code@),
    {
        let mut i: usize = 0;
        while i < function.modifiers.len()
            invariant
                i <= function.modifiers@.len(),
                forall|j: int|
                    0 <= j < i ==> !modifier_enforces_access_spec(
                        #[trigger] function.modifiers@[j]@,
                        ctx.source_code@,
                    ),
            decreases function.modifiers@.len() - i,
        {
            if self.modifier_enforces_access(function.modifiers[i].as_str(), ctx) {
                assert(modifier_enforces_access_spec(
                    function.modifiers@[i as int]@,
                    ctx.source_code@,
                ));
                return true;
            }
            i = i + 1;
        }
        false
    }

    /// The issues of `function` (see `mint_issues`). The source of an
    /// external or public mint function is read, so its span must be well
    /// formed.
    pub fn check_function(&self, function: &Function, ctx: &AnalysisContext) -> (r: Vec<
        MintIssue,
    >)
        requires
            is_checked_mint_function(*function) ==> span_ok(
                ctx.source_code@,
                function.start_line as int,
                function.end_line as int,
            ),
        ensures
            r@.map_values(|i: MintIssue| issue_view(i)) == mint_issues(
                *function,
                ctx.source_code@,
            ),
    {
        let mut issues: Vec<MintIssue> = Vec::new();
        let name = to_lowercase(&chars_of(function.name.as_str()));
        if !contains(&name, "mint") && !contains(&name, "issue") {
            assert(issues@.map_values(|i: MintIssue| issue_view(i)) =~= seq![]);
            return issues;
        }
        let is_external = match function.visibility {
            Visibility::External | Visibility::Public => true,
            _ => false,
        };
        if !is_external {
            assert(issues@.map_values(|i: MintIssue| issue_view(i)) =~= seq![]);
            return issues;
        }
        let func_source = to_lowercase(&self.get_function_source(function, ctx));
        let has_modifier = self.any_modifier_enforces_access(function, ctx);
        let has_inline_check = contains(&func_source, "require(msg.sender");
        let has_access = has_modifier || has_inline_check;
        let validates_message = contains(&func_source, "verify") && (contains(
            &func_source,
            "message",
        ) || contains(&func_source, "proof") || contains(&func_source, "signature"));
        let has_limits = contains(&func_source, "max") && contains(&func_source, "amount");
        let ghost v0 = issues@.map_values(|i: MintIssue| issue_view(i));
        assert(v0 =~= seq![]);
        if !has_access {
            issues.push(
                (
                    concat3("Unrestricted token minting in '", function.name.as_str(), "'"),
                    Severity::Critical,
                    String::from_str(
                        "Add access control: modifier onlyBridge { require(msg.sender == bridge); _; }",
                    ),
                ),
            );
        }
        let ghost v1 = issues@.map_values(|i: MintIssue| issue_view(i));
        if has_access && !validates_message {
            let is_owner_direct_mint = contains(&name, "owner") || contains(&name, "admin")
                || contains(&name, "manual") || (contains(&func_source, "msg.sender == owner")
                || contains(&func_source, "msg.sender == admin")) && !contains(&name, "bridge")
                && !contains(&name, "relay") && !contains(&name, "receive");
            if !is_owner_direct_mint {
                issues.push(
                    (
                        concat3(
                            "Missing message validation before minting in '",
                            function.name.as_str(),
                            "'",
                        ),
                        Severity::Critical,
                        String::from_str(
                            "Add: require(verifyMessage(hash, proof)); require(!processed[hash]); processed[hash] = true;",
                        ),
                    ),
                );
            }
        }
        let ghost v2 = issues@.map_values(|i: MintIssue| issue_view(i));
        if has_access && validates_message && !has_limits {
            issues.push(
                (
                    concat3("Missing mint amount limits in '", function.name.as_str(), "'"),
                    Severity::High,
                    String::from_str("Add: require(amount <= MAX_MINT_AMOUNT);"),
                ),
            );
        }
        let ghost v3 = issues@.map_values(|i: MintIssue| issue_view(i));
        proof {
            let spec = mint_issues(*function, ctx.source_code@);
            assert(v3 =~= spec);
        }
        issues
    }

    /// Whether every checked mint function has a span that can be taken
    /// (see `mint_spans_ok`).
    pub fn mint_spans_fit(&self, ctx: &AnalysisContext) -> (r: bool)
        ensures
            r == mint_spans_ok(*ctx),
    {
        let n = line_count(&ctx.source_code);
        let mut i: usize = 0;
        while i < ctx.functions.len()
            invariant
                i <= ctx.functions@.len(),
                n == lines(ctx.source_code@).len(),
                forall|j: int|
                    0 <= j < i && is_checked_mint_function(#[trigger] ctx.functions@[j])
                        ==> function_span_ok(ctx.source_code@, ctx.functions@[j]),
            decreases ctx.functions@.len() - i,
        {
            let f = &ctx.functions[i];
            let name = to_lowercase(&chars_of(f.name.as_str()));
            let external = match f.visibility {
                Visibility::External | Visibility::Public => true,
                _ => false,
            };
            let checked = (contains(&name, "mint") || contains(&name, "issue")) && external;
            if checked && !span_fits(n, f.start_line, f.end_line) {
                assert(is_checked_mint_function(ctx.functions@[i as int]));
                assert(!function_span_ok(ctx.source_code@, ctx.functions@[i as int]));
                return false;
            }
            i = i + 1;
        }
        true
    }

    /// The findings of this detector on `ctx` (see `mint_findings`), before
    /// the project-wide false-positive filter, which this library does not
    /// apply. The source of every external or public mint function is read
    /// unless the contract is exempt, so those spans must be well formed.
    pub fn detect(&self, ctx: &AnalysisContext) -> (r: Vec<Finding>)
        requires
            !mint_contract_exempt(*ctx) ==> mint_spans_ok(*ctx),
        ensures
            finding_views(r@) == mint_findings(self.meta(), *ctx),
    {
        let mut findings: Vec<Finding> = Vec::new();
        assert(finding_views(findings@) =~= seq![]);
        if ctx.traits.is_interface || ctx.traits.is_library {
            return findings;
        }
        if !self.is_bridge_contract(ctx) {
            return findings;
        }
        assert(mint_spans_ok(*ctx));
        let mut i: usize = 0;
        assert(ctx.functions@.take(0) =~= seq![]);
        while i < ctx.functions.len()
            invariant
                i <= ctx.functions@.len(),
                mint_spans_ok(*ctx),
                finding_views(findings@) == mint_reports(
                    self.meta(),
                    ctx.source_code@,
                    ctx.functions@.take(i as int),
                ),
            decreases ctx.functions@.len() - i,
        {
            let function = &ctx.functions[i];
            proof {
                assert(ctx.functions@.take(i + 1).drop_last() =~= ctx.functions@.take(i as int));
                if is_checked_mint_function(ctx.functions@[i as int]) {
                    assert(function_span_ok(ctx.source_code@, ctx.functions@[i as int]));
                }
            }
            let issues = self.check_function(function, ctx);
            let ghost start = finding_views(findings@);
            let ghost iv = issues@.map_values(|x: MintIssue| issue_view(x));
            let mut k: usize = 0;
            while k < issues.len()
                invariant
                    k <= issues@.len(),
                    iv == issues@.map_values(|x: MintIssue| issue_view(x)),
                    finding_views(findings@) == start + iv.take(k as int).map_values(
                        |x: (Seq<char>, Severity, Seq<char>)| mint_finding(self.meta(), *function, x),
                    ),
                decreases issues@.len() - k,
            {
                let issue = &issues[k];
                let finding = self.base.create_finding_with_severity(
                    issue.0.clone(),
                    function.name_line as u32,
                    0,
                    20,
                    issue.1,
                ).with_cwe(284).with_cwe(269).with_fix_suggestion(issue.2.clone());
                let ghost prev = findings@;
                findings.push(finding);
                proof {
                    assert(finding_views(findings@) =~= finding_views(prev).push(finding@));
                    assert(iv.take(k + 1) =~= iv.take(k as int).push(iv[k as int]));
                    assert(iv.take(k + 1).map_values(
                        |x: (Seq<char>, Severity, Seq<char>)| mint_finding(self.meta(), *function, x),
                    ) =~= iv.take(k as int).map_values(
                        |x: (Seq<char>, Severity, Seq<char>)| mint_finding(self.meta(), *function, x),
                    ).push(mint_finding(self.meta(), *function, iv[k as int])));
                }
                k = k + 1;
            }
            assert(iv.take(k as int) =~= iv);
            i = i + 1;
        }
        assert(ctx.functions@.take(i as int) =~= ctx.functions@);
        findings
    }

    /// The findings of this detector on `ctx` (see `detect`), or none when
    /// the source of a function that would be read has a reversed line span.
    pub fn try_detect(&self, ctx: &AnalysisContext) -> (r: Option<Vec<Finding>>)
        ensures
            r is Some <==> (!mint_contract_exempt(*ctx) ==> mint_spans_ok(*ctx)),
            r matches Some(v) ==> finding_views(v@) == mint_findings(self.meta(), *ctx),
    {
        let exempt = ctx.traits.is_interface || ctx.traits.is_library || !self.is_bridge_contract(
            ctx,
        );
        if exempt || self.mint_spans_fit(ctx) {
            Some(self.detect(ctx))
        } else {
            None
        }
    }
}

// ---------------------------------------------------------------------------
// Laws
// ---------------------------------------------------------------------------

proof fn lemma_reports_carry_id(base: BaseDetector, src: Seq<char>, fs: Seq<Function>)
    ensures
        forall|k: int|
            0 <= k < mint_reports(base, src, fs).len() ==> (#[trigger] mint_reports(
                base,
                src,
                fs,
            )[k]).detector_id == base.id@,
    decreases fs.len(),
{
    if fs.len() > 0 {
        lemma_reports_carry_id(base, src, fs.drop_last());
        let prev = mint_reports(base, src, fs.drop_last());
        let more = mint_issues(fs.last(), src).map_values(
            |i: (Seq<char>, Severity, Seq<char>)| mint_finding(base, fs.last(), i),
        );
        assert forall|k: int| 0 <= k < more.len() implies (#[trigger] more[k]).detector_id
            == base.id@ by {}
        assert forall|k: int|
            0 <= k < mint_reports(base, src, fs).len() implies (#[trigger] mint_reports(
                base,
                src,
                fs,
            )[k]).detector_id == base.id@ by {
            if k >= prev.len() {
                assert(mint_reports(base, src, fs)[k] == more[k - prev.len()]);
            }
        }
    }
}

/// Every finding of the detector carries the detector's identifier.
pub proof fn law_findings_carry_detector_id(d: TokenMintingDetector, ctx: AnalysisContext)
    ensures
        forall|k: int|
            0 <= k < mint_findings(d.meta(), ctx).len() ==> (#[trigger] mint_findings(
                d.meta(),
                ctx,
            )[k]).detector_id == d.meta().id@,
{
    lemma_reports_carry_id(d.meta(), ctx.source_code@, ctx.functions@);
}

/// Interfaces, libraries, and contracts whose source does not mention a
/// bridge, a relay or cross-chain messaging get no findings.
pub proof fn law_non_bridge_contracts_not_reported(d: TokenMintingDetector, ctx: AnalysisContext)
    requires
        ctx.traits.is_interface || ctx.traits.is_library || !bridge_text_spec(
            lowercase(ctx.source_code@),
        ),
    ensures
        mint_findings(d.meta(), ctx) == Seq::<FindingView>::empty(),
{
}

/// Only external or public functions whose name mentions `mint` or `issue`
/// have issues.
pub proof fn law_only_external_mint_functions_checked(f: Function, src: Seq<char>)
    requires
        mint_issues(f, src).len() > 0,
    ensures
        has_substring(lowercase(f.name@), "mint"@) || has_substring(lowercase(f.name@), "issue"@),
        f.visibility == Visibility::External || f.visibility == Visibility::Public,
{
}

/// A mint function without access control has exactly one issue, the
/// critical unrestricted-minting one; with access control it has at most one
/// issue, never a critical unrestricted one.
pub proof fn law_unrestricted_minting_excludes_other_issues(f: Function, src: Seq<char>)
    requires
        has_substring(lowercase(f.name@), "mint"@) || has_substring(lowercase(f.name@), "issue"@),
        f.visibility == Visibility::External || f.visibility == Visibility::Public,
    ensures
        ({
            let fsrc = lowered_function_source(src, f);
            let has_access = has_access_modifier(f, src) || has_substring(
                fsrc,
                "require(msg.sender"@,
            );
            &&& !has_access ==> mint_issues(f, src) == seq![
                (
                    "Unrestricted token minting in '"@ + f.name@ + "'"@,
                    Severity::Critical,
                    "Add access control: modifier onlyBridge { require(msg.sender == bridge); _; }"@,
                ),
            ]
            &&& has_access ==> mint_issues(f, src).len() <= 1
        }),
{
    let fsrc = lowered_function_source(src, f);
    let has_access = has_access_modifier(f, src) || has_substring(fsrc, "require(msg.sender"@);
    let e = Seq::<(Seq<char>, Severity, Seq<char>)>::empty();
    if !has_access {
        let one = seq![
            (
                "Unrestricted token minting in '"@ + f.name@ + "'"@,
                Severity::Critical,
                "Add access control: modifier onlyBridge { require(msg.sender == bridge); _; }"@,
            ),
        ];
        assert(one + e + e =~= one);
    }
}

/// A modifier whose definition is not in the source, or whose body is not
/// closed, is taken to enforce access (it is assumed inherited).
pub proof fn law_unresolved_modifier_trusted(name: Seq<char>, src: Seq<char>)
    requires
        modifier_body(name, src) is None,
    ensures
        modifier_enforces_access_spec(name, src),
{
}

/// A modifier defined in the source enforces access exactly when its body,
/// without `//` comments and lowercased, mentions `require(`, `revert(`,
/// `revert `, `msg.sender`, `if (`, `if(`, `assert(`, `_checkrole` or
/// `_checkowner` (OpenZeppelin's `_checkRole` and `_checkOwner` in any
/// case).
pub proof fn law_defined_modifier_access(name: Seq<char>, src: Seq<char>, body: Seq<char>)
    requires
        modifier_body(name, src) == Some(body),
    ensures
        ({
            let lower = lowercase(comment_free(lines(body)));
            modifier_enforces_access_spec(name, src) <==> {
                ||| has_substring(lower, "require("@)
                ||| has_substring(lower, "revert("@)
                ||| has_substring(lower, "revert "@)
                ||| has_substring(lower, "msg.sender"@)
                ||| has_substring(lower, "if ("@)
                ||| has_substring(lower, "if("@)
                ||| has_substring(lower, "assert("@)
                ||| has_substring(lower, "_checkrole"@)
                ||| has_substring(lower, "_checkowner"@)
            }
        }),
{
}

/// The detector reports on exactly the contracts that are neither
/// interfaces nor libraries and whose lowercased source mentions `bridge`,
/// `relay` or `crosschain`: there it reports the issues of every function.
pub proof fn law_bridge_contracts_checked(d: TokenMintingDetector, ctx: AnalysisContext)
    ensures
        ({
            let lower = lowercase(ctx.source_code@);
            let bridge = has_substring(lower, "bridge"@) || has_substring(lower, "relay"@)
                || has_substring(lower, "crosschain"@);
            mint_findings(d.meta(), ctx) == if !ctx.traits.is_interface && !ctx.traits.is_library
                && bridge {
                mint_reports(d.meta(), ctx.source_code@, ctx.functions@)
            } else {
                Seq::<FindingView>::empty()
            }
        }),
{
}

/// An external or public function whose lowercased name mentions `mint` or
/// `issue`, with access control (a modifier that enforces access, or
/// `require(msg.sender`), whose lowercased comment-free source mentions
/// `verify` together with `message`, `proof` or `signature`, and mentions
/// both `max` and `amount`, has no issues.
pub proof fn law_validated_limited_mint_has_no_issues(f: Function, src: Seq<char>)
    requires
        has_substring(lowercase(f.name@), "mint"@) || has_substring(lowercase(f.name@), "issue"@),
        f.visibility == Visibility::External || f.visibility == Visibility::Public,
        has_access_modifier(f, src) || has_substring(
            lowered_function_source(src, f),
            "require(msg.sender"@,
        ),
        ({
            let fsrc = lowered_function_source(src, f);
            &&& has_substring(fsrc, "verify"@)
            &&& (has_substring(fsrc, "message"@) || has_substring(fsrc, "proof"@) || has_substring(
                fsrc,
                "signature"@,
            ))
            &&& has_substring(fsrc, "max"@)
            &&& has_substring(fsrc, "amount"@)
        }),
    ensures
        mint_issues(f, src).len() == 0,
{
}

/// An access-controlled external or public mint function whose source does
/// not verify a message, proof or signature (no `verify`, or none of
/// `message`, `proof`, `signature`) has exactly the critical
/// missing-validation issue, unless it is an owner's direct mint: its
/// lowercased name mentions `owner`, `admin` or `manual`, or its source
/// checks `msg.sender == owner` or `msg.sender == admin` and its name
/// mentions none of `bridge`, `relay`, `receive`; then it has none.
pub proof fn law_unvalidated_mint_issue(f: Function, src: Seq<char>)
    requires
        has_substring(lowercase(f.name@), "mint"@) || has_substring(lowercase(f.name@), "issue"@),
        f.visibility == Visibility::External || f.visibility == Visibility::Public,
        has_access_modifier(f, src) || has_substring(
            lowered_function_source(src, f),
            "require(msg.sender"@,
        ),
        ({
            let fsrc = lowered_function_source(src, f);
            !(has_substring(fsrc, "verify"@) && (has_substring(fsrc, "message"@) || has_substring(
                fsrc,
                "proof"@,
            ) || has_substring(fsrc, "signature"@)))
        }),
    ensures
        ({
            let fsrc = lowered_function_source(src, f);
            let lname = lowercase(f.name@);
            let direct = {
                ||| has_substring(lname, "owner"@)
                ||| has_substring(lname, "admin"@)
                ||| has_substring(lname, "manual"@)
                ||| {
                    &&& (has_substring(fsrc, "msg.sender == owner"@) || has_substring(
                        fsrc,
                        "msg.sender == admin"@,
                    ))
                    &&& !has_substring(lname, "bridge"@)
                    &&& !has_substring(lname, "relay"@)
                    &&& !has_substring(lname, "receive"@)
                }
            };
            &&& direct ==> mint_issues(f, src).len() == 0
            &&& !direct ==> mint_issues(f, src) == seq![
                (
                    "Missing message validation before minting in '"@ + f.name@ + "'"@,
                    Severity::Critical,
                    "Add: require(verifyMessage(hash, proof)); require(!processed[hash]); processed[hash] = true;"@,
                ),
            ]
        }),
{
    let e = Seq::<(Seq<char>, Severity, Seq<char>)>::empty();
    let one = seq![
        (
            "Missing message validation before minting in '"@ + f.name@ + "'"@,
            Severity::Critical,
            "Add: require(verifyMessage(hash, proof)); require(!processed[hash]); processed[hash] = true;"@,
        ),
    ];
    assert(e + one + e =~= one);
}

/// An access-controlled external or public mint function that verifies a
/// message, proof or signature but does not mention both `max` and `amount`
/// has exactly the high-severity missing-limit issue.
pub proof fn law_unlimited_mint_issue(f: Function, src: Seq<char>)
    requires
        has_substring(lowercase(f.name@), "mint"@) || has_substring(lowercase(f.name@), "issue"@),
        f.visibility == Visibility::External || f.visibility == Visibility::Public,
        has_access_modifier(f, src) || has_substring(
            lowered_function_source(src, f),
            "require(msg.sender"@,
        ),
        ({
            let fsrc = lowered_function_source(src, f);
            &&& has_substring(fsrc, "verify"@)
            &&& (has_substring(fsrc, "message"@) || has_substring(fsrc, "proof"@) || has_substring(
                fsrc,
                "signature"@,
            ))
            &&& !(has_substring(fsrc, "max"@) && has_substring(fsrc, "amount"@))
        }),
    ensures
        mint_issues(f, src) == seq![
            (
                "Missing mint amount limits in '"@ + f.name@ + "'"@,
                Severity::High,
                "Add: require(amount <= MAX_MINT_AMOUNT);"@,
            ),
        ],
{
    let e = Seq::<(Seq<char>, Severity, Seq<char>)>::empty();
    let one = seq![
        (
            "Missing mint amount limits in '"@ + f.name@ + "'"@,
            Severity::High,
            "Add: require(amount <= MAX_MINT_AMOUNT);"@,
        ),
    ];
    assert(e + e + one =~= one);
}

impl Default for TokenMintingDetector {
    /// The same detector as `new` gives.
    fn default() -> (r: Self)
        ensures
            standard_metadata(r.meta()),
    {
        Self::new()
    }
}

} // verus!
