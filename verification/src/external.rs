//! External calls (`.call`, `.delegatecall`, `.staticcall`, `.send`,
//! `.transfer`) whose return value is not checked.
use vstd::prelude::*;

use crate::ast::{Expression, Function, Statement};
use crate::detector::{
    body_spans_fit, body_spans_ok, plain_function_source, AnalysisContext, BaseDetector, DetectorCategory, DetectorId, Finding, FindingView, Severity,
    finding_view, finding_views,
};
use crate::text::{
    byte_len_u32, byte_length, chars_of, concat3, contains, has_substring, lowercase, same_text,
    span_ok, span_text, to_lowercase,
};

verus! {

// ---------------------------------------------------------------------------
// What counts as a low-level call
// ---------------------------------------------------------------------------

/// The callee of a call, with a call-options wrapper (`x.call{value: v}`,
/// which the parser represents as a call of `x.call`) peeled off.
pub open spec fn peel_call_options(e: Expression) -> Expression {
    match e {
        Expression::FunctionCall { function, .. } => *function,
        _ => e,
    }
}

/// `e` looks like a collection or an internal operation rather than an
/// address: an identifier whose lowercased name mentions `array`, `list`,
/// `shareholders` or `allowances`, or a member chain through `length`,
/// `push` or `pop` or ending in such an identifier.
pub open spec fn is_collection_like(e: Expression) -> bool
    decreases e,
{
    match e {
        Expression::Identifier(id) => {
            collection_name_spec(lowercase(id@))
        },
        Expression::MemberAccess { expression, member } => {
            ||| member@ == "length"@
            ||| member@ == "push"@
            ||| member@ == "pop"@
            ||| is_collection_like(*expression)
        },
        _ => false,
    }
}

/// A lowercased identifier that names a collection: it mentions `array`,
/// `list`, `shareholders` or `allowances`.
pub open spec fn collection_name_spec(lower: Seq<char>) -> bool {
    ||| has_substring(lower, "array"@)
    ||| has_substring(lower, "list"@)
    ||| has_substring(lower, "shareholders"@)
    ||| has_substring(lower, "allowances"@)
}

/// A lowercased member name of an external call whose result must be
/// checked: `call`, `delegatecall`, `staticcall`, `send` or `transfer`.
pub open spec fn is_low_level_member(lower_member: Seq<char>) -> bool {
    ||| lower_member == "call"@
    ||| lower_member == "delegatecall"@
    ||| lower_member == "staticcall"@
    ||| lower_member == "send"@
    ||| lower_member == "transfer"@
}

/// Whether the lowercased identifier `lower` names a collection (see
/// `collection_name_spec`).
pub fn names_collection(lower: &Vec<char>) -> (r: bool)
    ensures
        r == collection_name_spec(lower@),
{
    contains(lower, "array") || contains(lower, "list") || contains(lower, "shareholders")
        || contains(lower, "allowances")
}

/// Whether the lowercased member name `lower` is that of an external call
/// (see `is_low_level_member`).
pub fn is_external_call_member(lower: &Vec<char>) -> (r: bool)
    ensures
        r == is_low_level_member(lower@),
{
    same_text(lower, "call") || same_text(lower, "delegatecall") || same_text(lower, "staticcall")
        || same_text(lower, "send") || same_text(lower, "transfer")
}

/// The callee `e` is an external call: after peeling call options it is
/// `x.call`, `x.delegatecall`, `x.staticcall`, `x.send` or `x.transfer`
/// (member compared
/// case-insensitively) on an `x` that is not collection-like.
pub open spec fn is_low_level_call(e: Expression) -> bool {
    match peel_call_options(e) {
        Expression::MemberAccess { expression, member } => {
            is_low_level_member(lowercase(member@)) && !is_collection_like(*expression)
        },
        _ => false,
    }
}

// ---------------------------------------------------------------------------
// Source-text heuristics (on the lowercased function source)
// ---------------------------------------------------------------------------

/// The lowercased function source binds a success flag and checks it.
pub open spec fn success_check_spec(lower: Seq<char>) -> bool {
    &&& {
        ||| has_substring(lower, "bool success"@)
        ||| has_substring(lower, "(bool success,"@)
        ||| has_substring(lower, "(bool ok,"@)
        ||| has_substring(lower, "bool ok ="@)
        ||| has_substring(lower, "(bool sent,"@)
        ||| has_substring(lower, "bool sent ="@)
    }
    &&& {
        ||| has_substring(lower, "require(success"@)
        ||| has_substring(lower, "require(ok"@)
        ||| has_substring(lower, "require(sent"@)
        ||| has_substring(lower, "if (!success"@)
        ||| has_substring(lower, "if(!success"@)
        ||| has_substring(lower, "if (!ok"@)
        ||| has_substring(lower, "if(!ok"@)
        ||| has_substring(lower, "if (!sent"@)
        ||| has_substring(lower, "if(!sent"@)
        ||| has_substring(lower, "assert(success"@)
        ||| has_substring(lower, "assert(ok"@)
        ||| has_substring(lower, "assert(sent"@)
    }
}

/// The lowercased function source emits an event around a `.call`, or
/// processes the returned data.
pub open spec fn chained_call_spec(lower: Seq<char>) -> bool {
    ||| (has_substring(lower, "emit "@) && has_substring(lower, ".call"@))
    ||| has_substring(lower, "(, bytes memory data)"@)
    ||| has_substring(lower, "(,bytes memory data)"@)
    ||| has_substring(lower, "abi.decode("@)
}

/// The lowercased function source is an approval pattern: an unlimited
/// `.approve(`, or any mention of `allowance` or `approve`.
pub open spec fn known_safe_spec(lower: Seq<char>) -> bool {
    ||| (has_substring(lower, ".approve("@) && (has_substring(lower, "0xffffffff"@)
        || has_substring(lower, "type(uint256).max"@)))
    ||| has_substring(lower, "allowance"@)
    ||| has_substring(lower, "approve"@)
}

/// Whether the lowercased text `lower` binds a success flag and checks it.
pub fn mentions_success_check(lower: &Vec<char>) -> (r: bool)
    ensures
        r == success_check_spec(lower@),
{
    let has_success_var = contains(lower, "bool success") || contains(lower, "(bool success,")
        || contains(lower, "(bool ok,") || contains(lower, "bool ok =") || contains(
        lower,
        "(bool sent,",
    ) || contains(lower, "bool sent =");
    let has_success_require = contains(lower, "require(success") || contains(lower, "require(ok")
        || contains(lower, "require(sent") || contains(lower, "if (!success") || contains(
        lower,
        "if(!success",
    ) || contains(lower, "if (!ok") || contains(lower, "if(!ok") || contains(lower, "if (!sent")
        || contains(lower, "if(!sent") || contains(lower, "assert(success") || contains(
        lower,
        "assert(ok",
    ) || contains(lower, "assert(sent");
    has_success_var && has_success_require
}

/// Whether the lowercased text `lower` shows a chained call pattern.
pub fn mentions_chained_call(lower: &Vec<char>) -> (r: bool)
    ensures
        r == chained_call_spec(lower@),
{
    let has_event_after = contains(lower, "emit ") && contains(lower, ".call");
    let processes_return_data = contains(lower, "(, bytes memory data)") || contains(
        lower,
        "(,bytes memory data)",
    ) || contains(lower, "abi.decode(");
    has_event_after || processes_return_data
}

/// Whether the lowercased text `lower` shows an approval pattern.
pub fn mentions_known_safe_call(lower: &Vec<char>) -> (r: bool)
    ensures
        r == known_safe_spec(lower@),
{
    let is_approve_pattern = contains(lower, ".approve(") && (contains(lower, "0xffffffff")
        || contains(lower, "type(uint256).max"));
    let has_approval_check = contains(lower, "allowance") || contains(lower, "approve");
    is_approve_pattern || has_approval_check
}

// ---------------------------------------------------------------------------
// Where unchecked calls are found
// ---------------------------------------------------------------------------

/// The number of unchecked low-level calls reported in the statement `s`:
/// a bare call statement counts when `bare` holds, a call that initialises
/// a variable or is assigned counts when `bound` holds; blocks, loop
/// bodies, both `if` branches, `try` bodies and `catch` clauses are looked
/// into.
pub open spec fn unchecked_in_statement(s: Statement, bare: bool, bound: bool) -> nat
    decreases s,
{
    match s {
        Statement::Expression(Expression::FunctionCall { function, .. }) => {
            if is_low_level_call(*function) && bare {
                1
            } else {
                0
            }
        },
        Statement::VariableDeclaration {
            initial_value: Some(Expression::FunctionCall { function, .. }),
        } => {
            if is_low_level_call(*function) && bound {
                1
            } else {
                0
            }
        },
        Statement::Expression(Expression::Assignment { right, .. }) => {
            match *right {
                Expression::FunctionCall { function, .. } => {
                    if is_low_level_call(*function) && bound {
                        1
                    } else {
                        0
                    }
                },
                _ => 0,
            }
        },
        Statement::Block(b) => unchecked_in_statements(b@, bare, bound),
        Statement::For { body } => unchecked_in_statement(*body, bare, bound),
        Statement::While { body } => unchecked_in_statement(*body, bare, bound),
        Statement::If { then_branch, else_branch, .. } => {
            unchecked_in_statement(*then_branch, bare, bound) + match else_branch {
                Some(e) => unchecked_in_statement(*e, bare, bound),
                None => 0,
            }
        },
        Statement::TryStatement { try_body, catch_clauses } => {
            unchecked_in_statements(try_body@, bare, bound) + unchecked_in_clauses(
                catch_clauses@,
                bare,
                bound,
            )
        },
        _ => 0,
    }
}

/// The number of unchecked calls reported in the statements `ss`.
pub open spec fn unchecked_in_statements(ss: Seq<Statement>, bare: bool, bound: bool) -> nat
    decreases ss,
{
    if ss.len() == 0 {
        0
    } else {
        unchecked_in_statement(ss[0], bare, bound) + unchecked_in_statements(
            ss.subrange(1, ss.len() as int),
            bare,
            bound,
        )
    }
}

/// The number of unchecked calls reported in the `catch` clauses `cs`.
pub open spec fn unchecked_in_clauses(cs: Seq<Vec<Statement>>, bare: bool, bound: bool) -> nat
    decreases cs,
{
    if cs.len() == 0 {
        0
    } else {
        unchecked_in_statements(cs[0]@, bare, bound) + unchecked_in_clauses(
            cs.subrange(1, cs.len() as int),
            bare,
            bound,
        )
    }
}

/// `n` copies of `x`.
pub open spec fn copies<A>(x: A, n: nat) -> Seq<A> {
    Seq::new(n, |_i: int| x)
}

proof fn lemma_copies_add<A>(x: A, a: nat, b: nat)
    ensures
        copies(x, a) + copies(x, b) == copies(x, a + b),
{
    assert(copies(x, a) + copies(x, b) =~= copies(x, a + b));
}

proof fn lemma_unchecked_in_statements_step(ss: Seq<Statement>, i: int, bare: bool, bound: bool)
    requires
        0 <= i < ss.len(),
    ensures
        unchecked_in_statements(ss.subrange(i, ss.len() as int), bare, bound) == unchecked_in_statement(ss[i], bare, bound)
            + unchecked_in_statements(ss.subrange(i + 1, ss.len() as int), bare, bound),
{
    let t = ss.subrange(i, ss.len() as int);
    assert(t[0] == ss[i]);
    assert(t.subrange(1, t.len() as int) =~= ss.subrange(i + 1, ss.len() as int));
}

proof fn lemma_unchecked_in_clauses_step(
    cs: Seq<Vec<Statement>>,
    i: int,
    bare: bool,
    bound: bool,
)
    requires
        0 <= i < cs.len(),
    ensures
        unchecked_in_clauses(cs.subrange(i, cs.len() as int), bare, bound) == unchecked_in_statements(cs[i]@, bare, bound)
            + unchecked_in_clauses(cs.subrange(i + 1, cs.len() as int), bare, bound),
{
    let t = cs.subrange(i, cs.len() as int);
    assert(t[0] == cs[i]);
    assert(t.subrange(1, t.len() as int) =~= cs.subrange(i + 1, cs.len() as int));
}

// ---------------------------------------------------------------------------
// The detector
// ---------------------------------------------------------------------------

/// Detects low-level external calls whose return value is not checked.
pub struct UncheckedCallDetector {
    base: BaseDetector,
}

/// The finding reported for each unchecked call in `f`.
pub open spec fn unchecked_call_finding(base: BaseDetector, f: Function) -> FindingView {
    finding_view(
        base.id@,
        "External call in function '"@ + f.name@ + "' does not check return value"@,
        f.name_line as u32,
        f.name_column as u32,
        byte_len_u32(f.name@),
        base.default_severity,
    ).add_cwe(252).set_fix(
        "Check the return value of external calls in function '"@ + f.name@ + "'"@,
    )
}

/// The function source `src` shows error handling that makes the function
/// exempt: `try`/`catch`, or SafeERC20 calls.
pub open spec fn handles_errors(src: Seq<char>) -> bool {
    ||| (has_substring(src, "try "@) && has_substring(src, "catch"@))
    ||| has_substring(src, "safeTransfer"@)
    ||| has_substring(src, "safeTransferFrom"@)
    ||| has_substring(src, "safeApprove"@)
}

/// The number of findings for the function `f` of the file `src`.
pub open spec fn unchecked_count(src: Seq<char>, f: Function) -> nat {
    let fs = plain_function_source(src, f);
    let lower = lowercase(fs);
    match f.body {
        Some(b) => if handles_errors(fs) {
            0
        } else {
            unchecked_in_statements(
                b@,
                !success_check_spec(lower) && !chained_call_spec(lower) && !known_safe_spec(lower),
                !success_check_spec(lower),
            )
        },
        None => 0,
    }
}

/// The findings for the functions `fs` of the file `src`, in order.
pub open spec fn unchecked_reports(base: BaseDetector, src: Seq<char>, fs: Seq<Function>) -> Seq<
    FindingView,
>
    decreases fs.len(),
{
    if fs.len() == 0 {
        seq![]
    } else {
        unchecked_reports(base, src, fs.drop_last()) + copies(
            unchecked_call_finding(base, fs.last()),
            unchecked_count(src, fs.last()),
        )
    }
}

/// The contract is exempt as a whole: an interface, a library, a test
/// contract, a proxy, interface-only, or one whose own (lowercased) text
/// uses SafeERC20 or the Address library.
pub open spec fn unchecked_contract_exempt(ctx: AnalysisContext) -> bool {
    let lower = lowercase(ctx.contract_source@);
    ||| ctx.traits.is_interface
    ||| ctx.traits.is_library
    ||| ctx.traits.is_test
    ||| has_substring(lower, "safeerc20"@)
    ||| has_substring(lower, "using address for"@)
    ||| ctx.traits.is_proxy
    ||| ctx.traits.is_interface_only
}

/// Everything the detector reports on `ctx`.
pub open spec fn unchecked_call_findings(base: BaseDetector, ctx: AnalysisContext) -> Seq<
    FindingView,
> {
    if unchecked_contract_exempt(ctx) {
        seq![]
    } else {
        unchecked_reports(base, ctx.source_code@, ctx.functions@)
    }
}

/// Whether the lowercased text `lower` uses SafeERC20 or the Address
/// library.
pub fn mentions_safe_call_library(lower: &Vec<char>) -> (r: bool)
    ensures
        r == (has_substring(lower@, "safeerc20"@) || has_substring(lower@, "using address for"@)),
{
    contains(lower, "safeerc20") || contains(lower, "using address for")
}

/// Whether the function source `src` shows try/catch or SafeERC20 calls.
pub fn mentions_error_handling(src: &Vec<char>) -> (r: bool)
    ensures
        r == handles_errors(src@),
{
    (contains(src, "try ") && contains(src, "catch")) || contains(src, "safeTransfer") || contains(
        src,
        "safeTransferFrom",
    ) || contains(src, "safeApprove")
}

/// The metadata the detector is made with.
pub open spec fn standard_metadata(m: BaseDetector) -> bool {
    &&& m.id@ == "unchecked-external-call"@
    &&& m.name@ == "Unchecked External Call"@
    &&& m.description@ == "External calls without return value checking"@
    &&& m.categories@ == seq![DetectorCategory::ExternalCalls]
    &&& m.default_severity == Severity::Medium
    &&& m.enabled
}

impl UncheckedCallDetector {
    /// The detector's metadata.
    pub closed spec fn meta(&self) -> BaseDetector {
        self.base
    }

    /// The detector's identifier.
    pub fn id(&self) -> (r: DetectorId)
        ensures
            r@ == self.meta().id@,
    {
        self.base.copy_id()
    }

    /// The detector's name.
    pub fn name(&self) -> (r: &str)
        ensures
            r@ == self.meta().name@,
    {
        self.base.name_str()
    }

    /// The detector's description.
    pub fn description(&self) -> (r: &str)
        ensures
            r@ == self.meta().description@,
    {
        self.base.description_str()
    }

    /// The severity of the detector's findings unless a finding says
    /// otherwise.
    pub fn default_severity(&self) -> (r: Severity)
        ensures
            r == self.meta().default_severity,
    {
        self.base.default_severity
    }

    /// The detector's categories.
    pub fn categories(&self) -> (r: Vec<DetectorCategory>)
        ensures
            r@ == self.meta().categories@,
    {
        self.base.copy_categories()
    }

    /// Whether the detector is enabled.
    pub fn is_enabled(&self) -> (r: bool)
        ensures
            r == self.meta().enabled,
    {
        self.base.enabled
    }

    /// The unchecked-external-call detector.
    pub fn new() -> (r: Self)
        ensures
            standard_metadata(r.meta()),
    {
        let categories = vec![DetectorCategory::ExternalCalls];
        assert(categories@ =~= seq![DetectorCategory::ExternalCalls]);
        UncheckedCallDetector {
            base: BaseDetector::new(
                DetectorId(String::from_str("unchecked-external-call")),
                String::from_str("Unchecked External Call"),
                String::from_str("External calls without return value checking"),
                categories,
                Severity::Medium,
            ),
        }
    }

    /// The source of `function`: its lines joined with `'\n'`.
    pub fn get_function_source(&self, function: &Function, ctx: &AnalysisContext) -> (r: Vec<
        char,
    >)
        requires
            span_ok(ctx.source_code@, function.start_line as int, function.end_line as int),
        ensures
            r@ == plain_function_source(ctx.source_code@, *function),
    {
        span_text(
            &chars_of(ctx.source_code.as_str()),
            function.start_line,
            function.end_line,
            false,
        )
    }

    /// Whether the function source binds a success flag and checks it
    /// (case-insensitively, see `success_check_spec`).
    pub fn has_inline_success_check(&self, func_source: &str) -> (r: bool)
        ensures
            r == success_check_spec(lowercase(func_source@)),
    {
        mentions_success_check(&to_lowercase(&chars_of(func_source)))
    }

    /// Whether the function source shows a chained call pattern
    /// (case-insensitively, see `chained_call_spec`).
    pub fn is_chained_call_pattern(&self, func_source: &str) -> (r: bool)
        ensures
            r == chained_call_spec(lowercase(func_source@)),
    {
        mentions_chained_call(&to_lowercase(&chars_of(func_source)))
    }

    /// Whether the function source shows an approval pattern
    /// (case-insensitively, see `known_safe_spec`).
    pub fn is_known_safe_function(&self, func_source: &str) -> (r: bool)
        ensures
            r == known_safe_spec(lowercase(func_source@)),
    {
        mentions_known_safe_call(&to_lowercase(&chars_of(func_source)))
    }

    /// Whether `expr` looks like a collection or an internal operation (see
    /// `is_collection_like`).
    pub fn is_array_or_internal_operation(&self, expr: &Expression) -> (r: bool)
        ensures
            r == is_collection_like(*expr),
        decreases expr,
    {
        match expr {
            Expression::Identifier(id) => {
                names_collection(&to_lowercase(&chars_of(id.as_str())))
            },
            Expression::MemberAccess { expression, member } => {
                let m = chars_of(member.as_str());
                if same_text(&m, "length") || same_text(&m, "push") || same_text(&m, "pop") {
                    return true;
                }
                self.is_array_or_internal_operation(expression)
            },
            _ => false,
        }
    }

    /// Whether the callee `expr` is an external call whose result must be
    /// checked: `.call{..}`, `.delegatecall`, `.staticcall`, `.send` or
    /// `.transfer`, also behind a call-options wrapper, on a receiver that
    /// does not look like a collection (see `is_low_level_call`).
    pub fn is_external_call(&self, expr: &Expression) -> (r: bool)
        ensures
            r == is_low_level_call(*expr),
    {
        let target: &Expression = match expr {
            Expression::FunctionCall { function, .. } => function,
            _ => expr,
        };
        if let Expression::MemberAccess { expression, member } = target {
            let method = to_lowercase(&chars_of(member.as_str()));
            if is_external_call_member(&method) {
                if !self.is_array_or_internal_operation(expression) {
                    return true;
                }
            }
        }
        false
    }

    /// Whether the statement's return value counts as checked: only a bare
    /// expression statement leaves it unchecked.
    pub fn return_value_checked(&self, stmt: &Statement) -> (r: bool)
        ensures
            r == !(*stmt is Expression),
    {
        match stmt {
            Statement::Expression(_) => false,
            _ => true,
        }
    }

    /// The finding reported for each unchecked call in `function`.
    fn report(&self, function: &Function) -> (r: Finding)
        ensures
            r@ == unchecked_call_finding(self.meta(), *function),
    {
        let message = concat3(
            "External call in function '",
            function.name.as_str(),
            "' does not check return value",
        );
        let fix = concat3(
            "Check the return value of external calls in function '",
            function.name.as_str(),
            "'",
        );
        self.base.create_finding(
            message,
            function.name_line as u32,
            function.name_column as u32,
            byte_length(&function.name),
        ).with_cwe(252).with_fix_suggestion(fix)
    }

    fn push_report(&self, findings: &mut Vec<Finding>, function: &Function)
        ensures
            finding_views(final(findings)@) == finding_views(old(findings)@) + copies(
                unchecked_call_finding(self.meta(), *function),
                1,
            ),
    {
        let f = self.report(function);
        let ghost prev = findings@;
        findings.push(f);
        assert(finding_views(findings@) =~= finding_views(prev) + copies(
            unchecked_call_finding(self.meta(), *function),
            1,
        ));
    }

    /// Whether the function source `src` binds and checks a success flag.
    fn success_checked(&self, src: &Vec<char>) -> (r: bool)
        ensures
            r == success_check_spec(lowercase(src@)),
    {
        mentions_success_check(&to_lowercase(src))
    }

    /// Reports the unchecked low-level calls in `statements` (see
    /// `unchecked_in_statements`): one finding for `function` per call.
    pub fn check_statements_for_unchecked_calls(
        &self,
        statements: &Vec<Statement>,
        findings: &mut Vec<Finding>,
        function: &Function,
        func_source: &Vec<char>,
    )
        ensures
            ({
                let lower = lowercase(func_source@);
                finding_views(final(findings)@) == finding_views(old(findings)@) + copies(
                    unchecked_call_finding(self.meta(), *function),
                    unchecked_in_statements(
                        statements@,
                        !success_check_spec(lower) && !chained_call_spec(lower)
                            && !known_safe_spec(lower),
                        !success_check_spec(lower),
                    ),
                )
            }),
        decreases statements, 0int,
    {
        let ghost lower = lowercase(func_source@);
        let ghost bare = !success_check_spec(lower) && !chained_call_spec(lower) && !known_safe_spec(
            lower,
        );
        let ghost bound = !success_check_spec(lower);
        let ghost x = unchecked_call_finding(self.meta(), *function);
        let ghost start = finding_views(findings@);
        let ghost total = unchecked_in_statements(statements@, bare, bound);
        let mut i: usize = 0;
        assert(statements@.subrange(0, statements@.len() as int) =~= statements@);
        while i < statements.len()
            invariant
                i <= statements@.len(),
                lower == lowercase(func_source@),
                bare == (!success_check_spec(lower) && !chained_call_spec(lower)
                    && !known_safe_spec(lower)),
                bound == !success_check_spec(lower),
                x == unchecked_call_finding(self.meta(), *function),
                total == unchecked_in_statements(statements@, bare, bound),
                finding_views(findings@) + copies(
                    x,
                    unchecked_in_statements(
                        statements@.subrange(i as int, statements@.len() as int),
                        bare,
                        bound,
                    ),
                ) == start + copies(x, total),
            decreases statements@.len() - i,
        {
            proof {
                lemma_unchecked_in_statements_step(statements@, i as int, bare, bound);
            }
            let ghost before = finding_views(findings@);
            self.check_statement(&statements[i], findings, function, func_source);
            proof {
                let a = unchecked_in_statement(statements@[i as int], bare, bound);
                let b = unchecked_in_statements(
                    statements@.subrange(i + 1, statements@.len() as int),
                    bare,
                    bound,
                );
                lemma_copies_add(x, a, b);
                assert(before + copies(x, a + b) == (before + copies(x, a)) + copies(x, b));
            }
            i = i + 1;
        }
        proof {
            assert(statements@.subrange(i as int, statements@.len() as int) =~= Seq::<
                Statement,
            >::empty());
            assert(finding_views(findings@) + copies(x, 0) =~= finding_views(findings@));
        }
    }

    /// Reports the unchecked low-level calls in one statement (see
    /// `unchecked_in_statement`).
    fn check_statement(
        &self,
        stmt: &Statement,
        findings: &mut Vec<Finding>,
        function: &Function,
        func_source: &Vec<char>,
    )
        ensures
            ({
                let lower = lowercase(func_source@);
                finding_views(final(findings)@) == finding_views(old(findings)@) + copies(
                    unchecked_call_finding(self.meta(), *function),
                    unchecked_in_statement(
                        *stmt,
                        !success_check_spec(lower) && !chained_call_spec(lower)
                            && !known_safe_spec(lower),
                        !success_check_spec(lower),
                    ),
                )
            }),
        decreases stmt, 1int,
    {
        let ghost x = unchecked_call_finding(self.meta(), *function);
        proof {
            assert(finding_views(findings@) + copies(x, 0) =~= finding_views(findings@));
        }
        match stmt {
            Statement::Expression(Expression::FunctionCall { function: call_expr, .. }) => {
                if self.is_external_call(call_expr) && !self.return_value_checked(stmt) {
                    if self.success_checked(func_source) {
                        return ;
                    }
                    let lower = to_lowercase(func_source);
                    if mentions_chained_call(&lower) {
                        return ;
                    }
                    if mentions_known_safe_call(&lower) {
                        return ;
                    }
                    self.push_report(findings, function);
                }
            },
            Statement::VariableDeclaration {
                initial_value: Some(Expression::FunctionCall { function: call_expr, .. }),
            } => {
                if self.is_external_call(call_expr) {
                    if !self.success_checked(func_source) {
                        self.push_report(findings, function);
                    }
                }
            },
            Statement::Expression(Expression::Assignment { right, .. }) => {
                if let Expression::FunctionCall { function: call_expr, .. } = &**right {
                    if self.is_external_call(call_expr) {
                        if !self.success_checked(func_source) {
                            self.push_report(findings, function);
                        }
                    }
                }
            },
            Statement::Block(b) => {
                self.check_statements_for_unchecked_calls(b, findings, function, func_source);
            },
            Statement::For { body } => {
                self.recurse_into_statement(body, findings, function, func_source);
            },
            Statement::While { body } => {
                self.recurse_into_statement(body, findings, function, func_source);
            },
            Statement::If { then_branch, else_branch, .. } => {
                let ghost lower = lowercase(func_source@);
                let ghost bare = !success_check_spec(lower) && !chained_call_spec(lower)
                    && !known_safe_spec(lower);
                let ghost bound = !success_check_spec(lower);
                let ghost before = finding_views(findings@);
                self.recurse_into_statement(then_branch, findings, function, func_source);
                let ghost a = unchecked_in_statement(**then_branch, bare, bound);
                if let Some(else_stmt) = else_branch {
                    let ghost mid = finding_views(findings@);
                    self.recurse_into_statement(else_stmt, findings, function, func_source);
                    proof {
                        let b = unchecked_in_statement(**else_stmt, bare, bound);
                        lemma_copies_add(x, a, b);
                        assert(before + copies(x, a + b) == (before + copies(x, a)) + copies(x, b));
                    }
                } else {
                    assert(a + 0 == a);
                }
            },
            Statement::TryStatement { try_body, catch_clauses } => {
                let ghost lower = lowercase(func_source@);
                let ghost bare = !success_check_spec(lower) && !chained_call_spec(lower)
                    && !known_safe_spec(lower);
                let ghost bound = !success_check_spec(lower);
                let ghost before = finding_views(findings@);
                self.check_statements_for_unchecked_calls(try_body, findings, function, func_source);
                let ghost a = unchecked_in_statements(try_body@, bare, bound);
                let ghost mid = finding_views(findings@);
                self.check_clauses(catch_clauses, findings, function, func_source);
                proof {
                    let b = unchecked_in_clauses(catch_clauses@, bare, bound);
                    lemma_copies_add(x, a, b);
                    assert(before + copies(x, a + b) == (before + copies(x, a)) + copies(x, b));
                }
            },
            _ => {},
        }
    }

    /// Reports the unchecked low-level calls in a loop body or `if` branch:
    /// the statements of a block, or the statement itself.
    fn recurse_into_statement(
        &self,
        stmt: &Statement,
        findings: &mut Vec<Finding>,
        function: &Function,
        func_source: &Vec<char>,
    )
        ensures
            ({
                let lower = lowercase(func_source@);
                finding_views(final(findings)@) == finding_views(old(findings)@) + copies(
                    unchecked_call_finding(self.meta(), *function),
                    unchecked_in_statement(
                        *stmt,
                        !success_check_spec(lower) && !chained_call_spec(lower)
                            && !known_safe_spec(lower),
                        !success_check_spec(lower),
                    ),
                )
            }),
        decreases stmt, 2int,
    {
        match stmt {
            Statement::Block(b) => {
                self.check_statements_for_unchecked_calls(b, findings, function, func_source);
            },
            other => {
                self.check_statement(other, findings, function, func_source);
            },
        }
    }

    /// Reports the unchecked low-level calls in the `catch` clauses.
    fn check_clauses(
        &self,
        clauses: &Vec<Vec<Statement>>,
        findings: &mut Vec<Finding>,
        function: &Function,
        func_source: &Vec<char>,
    )
        ensures
            ({
                let lower = lowercase(func_source@);
                finding_views(final(findings)@) == finding_views(old(findings)@) + copies(
                    unchecked_call_finding(self.meta(), *function),
                    unchecked_in_clauses(
                        clauses@,
                        !success_check_spec(lower) && !chained_call_spec(lower)
                            && !known_safe_spec(lower),
                        !success_check_spec(lower),
                    ),
                )
            }),
        decreases clauses, 0int,
    {
        let ghost lower = lowercase(func_source@);
        let ghost bare = !success_check_spec(lower) && !chained_call_spec(lower) && !known_safe_spec(
            lower,
        );
        let ghost bound = !success_check_spec(lower);
        let ghost x = unchecked_call_finding(self.meta(), *function);
        let ghost start = finding_views(findings@);
        let ghost total = unchecked_in_clauses(clauses@, bare, bound);
        let mut i: usize = 0;
        assert(clauses@.subrange(0, clauses@.len() as int) =~= clauses@);
        while i < clauses.len()
            invariant
                i <= clauses@.len(),
                lower == lowercase(func_source@),
                bare == (!success_check_spec(lower) && !chained_call_spec(lower)
                    && !known_safe_spec(lower)),
                bound == !success_check_spec(lower),
                x == unchecked_call_finding(self.meta(), *function),
                total == unchecked_in_clauses(clauses@, bare, bound),
                finding_views(findings@) + copies(
                    x,
                    unchecked_in_clauses(clauses@.subrange(i as int, clauses@.len() as int), bare, bound),
                ) == start + copies(x, total),
            decreases clauses@.len() - i,
        {
            proof {
                lemma_unchecked_in_clauses_step(clauses@, i as int, bare, bound);
            }
            let ghost before = finding_views(findings@);
            self.check_statements_for_unchecked_calls(&clauses[i], findings, function, func_source);
            proof {
                let a = unchecked_in_statements(clauses@[i as int]@, bare, bound);
                let b = unchecked_in_clauses(
                    clauses@.subrange(i + 1, clauses@.len() as int),
                    bare,
                    bound,
                );
                lemma_copies_add(x, a, b);
                assert(before + copies(x, a + b) == (before + copies(x, a)) + copies(x, b));
            }
            i = i + 1;
        }
        proof {
            assert(clauses@.subrange(i as int, clauses@.len() as int) =~= Seq::<
                Vec<Statement>,
            >::empty());
            assert(finding_views(findings@) + copies(x, 0) =~= finding_views(findings@));
        }
    }

    /// The findings of this detector on `ctx` (see
    /// `unchecked_call_findings`), before the project-wide false-positive
    /// filter, which this library does not apply. The source of every
    /// function with a body is read unless the contract is exempt, so those
    /// spans must be well formed.
    pub fn detect(&self, ctx: &AnalysisContext) -> (r: Vec<Finding>)
        requires
            !unchecked_contract_exempt(*ctx) ==> body_spans_ok(*ctx),
        ensures
            finding_views(r@) == unchecked_call_findings(self.meta(), *ctx),
    {
        let mut findings: Vec<Finding> = Vec::new();
        assert(finding_views(findings@) =~= seq![]);
        if ctx.traits.is_interface || ctx.traits.is_library || ctx.traits.is_test {
            return findings;
        }
        let source_lower = to_lowercase(&chars_of(ctx.contract_source.as_str()));
        if mentions_safe_call_library(&source_lower) {
            return findings;
        }
        if ctx.traits.is_proxy || ctx.traits.is_interface_only {
            return findings;
        }
        assert(body_spans_ok(*ctx));
        let mut i: usize = 0;
        assert(ctx.functions@.take(0) =~= seq![]);
        while i < ctx.functions.len()
            invariant
                i <= ctx.functions@.len(),
                body_spans_ok(*ctx),
                finding_views(findings@) == unchecked_reports(
                    self.meta(),
                    ctx.source_code@,
                    ctx.functions@.take(i as int),
                ),
            decreases ctx.functions@.len() - i,
        {
            let function = &ctx.functions[i];
            let ghost prev = finding_views(findings@);
            proof {
                assert(ctx.functions@.take(i + 1).drop_last() =~= ctx.functions@.take(i as int));
            }
            if let Some(body) = &function.body {
                assert(ctx.functions@[i as int].body is Some);
                let func_source = self.get_function_source(function, ctx);
                if !mentions_error_handling(&func_source) {
                    self.check_statements_for_unchecked_calls(
                        body,
                        &mut findings,
                        function,
                        &func_source,
                    );
                } else {
                    assert(prev + copies(unchecked_call_finding(self.meta(), *function), 0) =~= prev);
                }
            } else {
                assert(prev + copies(unchecked_call_finding(self.meta(), *function), 0) =~= prev);
            }
            i = i + 1;
        }
        assert(ctx.functions@.take(i as int) =~= ctx.functions@);
        findings
    }

    /// The findings of this detector on `ctx` (see `detect`), or none when
    /// the source of a function that would be read has a reversed line span.
    pub fn try_detect(&self, ctx: &AnalysisContext) -> (r: Option<Vec<Finding>>)
        ensures
            r is Some <==> (!unchecked_contract_exempt(*ctx) ==> body_spans_ok(*ctx)),
            r matches Some(v) ==> finding_views(v@) == unchecked_call_findings(self.meta(), *ctx),
    {
        let exempt = ctx.traits.is_interface || ctx.traits.is_library || ctx.traits.is_test
            || mentions_safe_call_library(&to_lowercase(&chars_of(ctx.contract_source.as_str())))
            || ctx.traits.is_proxy || ctx.traits.is_interface_only;
        if exempt || body_spans_fit(ctx) {
            Some(self.detect(ctx))
        } else {
            None
        }
    }
}

impl Default for UncheckedCallDetector {
    /// The same detector as `new` gives.
    fn default() -> (r: Self)
        ensures
            standard_metadata(r.meta()),
    {
        Self::new()
    }
}

// ---------------------------------------------------------------------------
// Laws
// ---------------------------------------------------------------------------

proof fn lemma_reports_carry_id(base: BaseDetector, src: Seq<char>, fs: Seq<Function>)
    ensures
        forall|k: int|
            0 <= k < unchecked_reports(base, src, fs).len() ==> (#[trigger] unchecked_reports(
                base,
                src,
                fs,
            )[k]).detector_id == base.id@,
    decreases fs.len(),
{
    if fs.len() > 0 {
        lemma_reports_carry_id(base, src, fs.drop_last());
    }
}

/// Every finding of the detector carries the detector's identifier.
pub proof fn law_findings_carry_detector_id(d: UncheckedCallDetector, ctx: AnalysisContext)
    ensures
        forall|k: int|
            0 <= k < unchecked_call_findings(d.meta(), ctx).len() ==> (
            #[trigger] unchecked_call_findings(d.meta(), ctx)[k]).detector_id == d.meta().id@,
{
    lemma_reports_carry_id(d.meta(), ctx.source_code@, ctx.functions@);
}

/// A call-options wrapper (`x.call{value: v}(..)`) is peeled: the call is
/// judged as the bare member access.
pub proof fn law_call_options_peeled(x: Expression, member: String, arguments: Vec<Expression>)
    ensures
        is_low_level_call(
            Expression::FunctionCall {
                function: Box::new(Expression::MemberAccess { expression: Box::new(x), member }),
                arguments,
            },
        ) == is_low_level_call(Expression::MemberAccess { expression: Box::new(x), member }),
{
}

/// Only `call`, `delegatecall`, `staticcall`, `send` and `transfer` on a
/// receiver that does not look like a collection count as external calls;
/// `push`, mapping access and ordinary method calls never do.
pub proof fn law_only_low_level_members(e: Expression)
    requires
        is_low_level_call(e),
    ensures
        peel_call_options(e) matches Expression::MemberAccess { expression, member } && {
            &&& is_low_level_member(lowercase(member@))
            &&& !is_collection_like(*expression)
        },
{
}

/// An indexed receiver is never taken for a collection: `payees[i].call`
/// (a batch payout) is a low-level call.
pub proof fn law_indexed_receivers_flagged(
    base: Expression,
    index: Option<Box<Expression>>,
    member: String,
)
    requires
        is_low_level_member(lowercase(member@)),
    ensures
        is_low_level_call(
            Expression::MemberAccess {
                expression: Box::new(Expression::IndexAccess { base: Box::new(base), index }),
                member,
            },
        ),
{
}

proof fn lemma_none_in_statement(s: Statement)
    ensures
        unchecked_in_statement(s, false, false) == 0,
    decreases s,
{
    match s {
        Statement::Block(b) => lemma_none_in_statements(b@),
        Statement::For { body } => lemma_none_in_statement(*body),
        Statement::While { body } => lemma_none_in_statement(*body),
        Statement::If { then_branch, else_branch, .. } => {
            lemma_none_in_statement(*then_branch);
            if let Some(e) = else_branch {
                lemma_none_in_statement(*e);
            }
        },
        Statement::TryStatement { try_body, catch_clauses } => {
            lemma_none_in_statements(try_body@);
            lemma_none_in_clauses(catch_clauses@);
        },
        _ => {},
    }
}

proof fn lemma_none_in_statements(ss: Seq<Statement>)
    ensures
        unchecked_in_statements(ss, false, false) == 0,
    decreases ss,
{
    if ss.len() > 0 {
        lemma_none_in_statement(ss[0]);
        lemma_none_in_statements(ss.subrange(1, ss.len() as int));
    }
}

proof fn lemma_none_in_clauses(cs: Seq<Vec<Statement>>)
    ensures
        unchecked_in_clauses(cs, false, false) == 0,
    decreases cs,
{
    if cs.len() > 0 {
        lemma_none_in_statements(cs[0]@);
        lemma_none_in_clauses(cs.subrange(1, cs.len() as int));
    }
}

/// A function whose source binds a success flag and checks it
/// (`(bool success, ) = ..; require(success)`) gets no finding.
pub proof fn law_checked_success_not_reported(src: Seq<char>, f: Function)
    requires
        success_check_spec(lowercase(plain_function_source(src, f))),
    ensures
        unchecked_count(src, f) == 0,
{
    if let Some(b) = f.body {
        lemma_none_in_statements(b@);
    }
}

/// Interfaces, libraries, test contracts, proxies, interface-only
/// contracts, and contracts using SafeERC20 or the Address library get no
/// findings.
pub proof fn law_exempt_contracts_not_reported(d: UncheckedCallDetector, ctx: AnalysisContext)
    requires
        unchecked_contract_exempt(ctx),
    ensures
        unchecked_call_findings(d.meta(), ctx) == Seq::<FindingView>::empty(),
{
}

/// A lowercased function source binds a success flag: it mentions
/// `bool success`, `(bool success,`, `(bool ok,`, `bool ok =`,
/// `(bool sent,` or `bool sent =`.
pub open spec fn binds_success_flag(lower: Seq<char>) -> bool {
    ||| has_substring(lower, "bool success"@)
    ||| has_substring(lower, "(bool success,"@)
    ||| has_substring(lower, "(bool ok,"@)
    ||| has_substring(lower, "bool ok ="@)
    ||| has_substring(lower, "(bool sent,"@)
    ||| has_substring(lower, "bool sent ="@)
}

/// A lowercased function source checks a success flag named `success`,
/// `ok` or `sent`: `require(..`, `if (!..` or `if(!..`, or `assert(..`.
pub open spec fn checks_success_flag(lower: Seq<char>) -> bool {
    ||| has_substring(lower, "require(success"@)
    ||| has_substring(lower, "require(ok"@)
    ||| has_substring(lower, "require(sent"@)
    ||| has_substring(lower, "if (!success"@)
    ||| has_substring(lower, "if(!success"@)
    ||| has_substring(lower, "if (!ok"@)
    ||| has_substring(lower, "if(!ok"@)
    ||| has_substring(lower, "if (!sent"@)
    ||| has_substring(lower, "if(!sent"@)
    ||| has_substring(lower, "assert(success"@)
    ||| has_substring(lower, "assert(ok"@)
    ||| has_substring(lower, "assert(sent"@)
}

/// A function whose lowercased source both binds a success flag and checks
/// it gets no unchecked-call findings: for instance one that holds
/// `(bool success, ) = to.call{value: amount}("")` and
/// `if (!success) revert ..`.
pub proof fn law_bound_and_checked_success_not_reported(src: Seq<char>, f: Function)
    requires
        binds_success_flag(lowercase(plain_function_source(src, f))),
        checks_success_flag(lowercase(plain_function_source(src, f))),
    ensures
        unchecked_count(src, f) == 0,
{
    law_checked_success_not_reported(src, f);
}

/// `has_inline_success_check` holds of a source exactly when its lowercased
/// text both binds a success flag and checks it.
pub proof fn law_inline_success_check(func_source: Seq<char>)
    ensures
        success_check_spec(lowercase(func_source)) <==> binds_success_flag(lowercase(func_source))
            && checks_success_flag(lowercase(func_source)),
{
}

proof fn lemma_single_statement(s: Statement, bare: bool, bound: bool, ss: Seq<Statement>)
    requires
        ss.len() == 1,
        ss[0] == s,
    ensures
        unchecked_in_statements(ss, bare, bound) == unchecked_in_statement(s, bare, bound),
{
    let rest = ss.subrange(1, ss.len() as int);
    assert(rest =~= Seq::<Statement>::empty());
    assert(unchecked_in_statements(rest, bare, bound) == 0);
}

/// For a function without try/catch or SafeERC20 calls whose body is a
/// single low-level call whose result initialises a variable or is
/// assigned, the call is reported exactly when the lowercased source does
/// not both bind and check a success flag.
pub proof fn law_bound_call_reported_unless_checked(src: Seq<char>, f: Function)
    requires
        !handles_errors(plain_function_source(src, f)),
        match f.body {
            Some(b) => b@.len() == 1 && match b@[0] {
                Statement::VariableDeclaration {
                    initial_value: Some(Expression::FunctionCall { function, .. }),
                } => is_low_level_call(*function),
                Statement::Expression(Expression::Assignment { right, .. }) => match *right {
                    Expression::FunctionCall { function, .. } => is_low_level_call(*function),
                    _ => false,
                },
                _ => false,
            },
            None => false,
        },
    ensures
        ({
            let lower = lowercase(plain_function_source(src, f));
            &&& unchecked_count(src, f) <= 1
            &&& unchecked_count(src, f) == 1 <==> !(binds_success_flag(lower) && checks_success_flag(
                lower,
            ))
        }),
{
    let b = f.body->0;
    let lower = lowercase(plain_function_source(src, f));
    lemma_single_statement(
        b@[0],
        !success_check_spec(lower) && !chained_call_spec(lower) && !known_safe_spec(lower),
        !success_check_spec(lower),
        b@,
    );
}

/// For a function without try/catch or SafeERC20 calls whose body is a
/// single low-level call statement whose result is dropped, the call is
/// reported exactly when the lowercased source neither binds and checks a
/// success flag, nor emits an event around a `.call` or processes returned
/// data (`(, bytes memory data)`, `(,bytes memory data)`, `abi.decode(`),
/// nor mentions an approval (`.approve(` with `0xffffffff` or
/// `type(uint256).max`, or any `allowance` or `approve`).
pub proof fn law_bare_call_reported_unless_handled(src: Seq<char>, f: Function)
    requires
        !handles_errors(plain_function_source(src, f)),
        match f.body {
            Some(b) => b@.len() == 1 && match b@[0] {
                Statement::Expression(Expression::FunctionCall { function, .. }) => is_low_level_call(
                    *function,
                ),
                _ => false,
            },
            None => false,
        },
    ensures
        ({
            let lower = lowercase(plain_function_source(src, f));
            let checked = binds_success_flag(lower) && checks_success_flag(lower);
            let chained = {
                ||| (has_substring(lower, "emit "@) && has_substring(lower, ".call"@))
                ||| has_substring(lower, "(, bytes memory data)"@)
                ||| has_substring(lower, "(,bytes memory data)"@)
                ||| has_substring(lower, "abi.decode("@)
            };
            let approval = {
                ||| (has_substring(lower, ".approve("@) && (has_substring(lower, "0xffffffff"@)
                    || has_substring(lower, "type(uint256).max"@)))
                ||| has_substring(lower, "allowance"@)
                ||| has_substring(lower, "approve"@)
            };
            &&& unchecked_count(src, f) <= 1
            &&& unchecked_count(src, f) == 1 <==> !checked && !chained && !approval
        }),
{
    let b = f.body->0;
    let lower = lowercase(plain_function_source(src, f));
    lemma_single_statement(
        b@[0],
        !success_check_spec(lower) && !chained_call_spec(lower) && !known_safe_spec(lower),
        !success_check_spec(lower),
        b@,
    );
}

/// A member access `x.m` on an identifier `x` is an external call exactly
/// when the lowercased `m` is `call`, `delegatecall`, `staticcall`, `send`
/// or `transfer` and the lowercased `x` mentions none of `array`, `list`,
/// `shareholders`, `allowances`.
pub proof fn law_external_call_members(x: String, member: String)
    ensures
        is_low_level_call(
            Expression::MemberAccess { expression: Box::new(Expression::Identifier(x)), member },
        ) <==> {
            let m = lowercase(member@);
            let lx = lowercase(x@);
            &&& (m == "call"@ || m == "delegatecall"@ || m == "staticcall"@ || m == "send"@ || m
                == "transfer"@)
            &&& !has_substring(lx, "array"@)
            &&& !has_substring(lx, "list"@)
            &&& !has_substring(lx, "shareholders"@)
            &&& !has_substring(lx, "allowances"@)
        },
{
}

/// Calls nested in a loop body, in either branch of an `if`, in a block, or
/// in a `try` body count as they would at the top level: a loop or an `if`
/// adds its parts' counts, whatever the condition.
pub proof fn law_nested_calls_counted(
    s: Statement,
    t: Statement,
    condition: Expression,
    bs: Vec<Statement>,
    clauses: Vec<Vec<Statement>>,
    bare: bool,
    bound: bool,
)
    requires
        bs@ == seq![s],
        clauses@.len() == 0,
    ensures
        unchecked_in_statement(Statement::For { body: Box::new(s) }, bare, bound)
            == unchecked_in_statement(s, bare, bound),
        unchecked_in_statement(Statement::While { body: Box::new(s) }, bare, bound)
            == unchecked_in_statement(s, bare, bound),
        unchecked_in_statement(
            Statement::If { condition, then_branch: Box::new(s), else_branch: Some(Box::new(t)) },
            bare,
            bound,
        ) == unchecked_in_statement(s, bare, bound) + unchecked_in_statement(t, bare, bound),
        unchecked_in_statement(Statement::Block(bs), bare, bound) == unchecked_in_statement(
            s,
            bare,
            bound,
        ),
        unchecked_in_statement(
            Statement::TryStatement { try_body: bs, catch_clauses: clauses },
            bare,
            bound,
        ) == unchecked_in_statement(s, bare, bound),
{
    lemma_single_statement(s, bare, bound, bs@);
    assert(unchecked_in_clauses(clauses@, bare, bound) == 0);
}

/// A function whose source uses `try ` with `catch`, or `safeTransfer`,
/// `safeTransferFrom` or `safeApprove`, gets no unchecked-call findings.
pub proof fn law_error_handling_not_reported(src: Seq<char>, f: Function)
    requires
        ({
            let fs = plain_function_source(src, f);
            ||| (has_substring(fs, "try "@) && has_substring(fs, "catch"@))
            ||| has_substring(fs, "safeTransfer"@)
            ||| has_substring(fs, "safeTransferFrom"@)
            ||| has_substring(fs, "safeApprove"@)
        }),
    ensures
        unchecked_count(src, f) == 0,
{
}

/// The detector reports nothing on interfaces, libraries, test contracts,
/// proxies, interface-only contracts and contracts whose lowercased text
/// mentions `safeerc20` or `using address for`; on every other contract it
/// reports the unchecked calls of every function.
pub proof fn law_unchecked_exemptions(d: UncheckedCallDetector, ctx: AnalysisContext)
    ensures
        ({
            let lower = lowercase(ctx.contract_source@);
            let exempt = {
                ||| ctx.traits.is_interface
                ||| ctx.traits.is_library
                ||| ctx.traits.is_test
                ||| ctx.traits.is_proxy
                ||| ctx.traits.is_interface_only
                ||| has_substring(lower, "safeerc20"@)
                ||| has_substring(lower, "using address for"@)
            };
            unchecked_call_findings(d.meta(), ctx) == if exempt {
                Seq::<FindingView>::empty()
            } else {
                unchecked_reports(d.meta(), ctx.source_code@, ctx.functions@)
            }
        }),
{
}

/// A call through `.length`, `.push` or `.pop` of any receiver is never an
/// external call, whatever the member called on it.
pub proof fn law_collection_members_not_external(x: Expression, inner: String, member: String)
    requires
        inner@ == "length"@ || inner@ == "push"@ || inner@ == "pop"@,
    ensures
        !is_low_level_call(
            Expression::MemberAccess {
                expression: Box::new(Expression::MemberAccess { expression: Box::new(x), member: inner }),
                member,
            },
        ),
{
}

} // verus!
