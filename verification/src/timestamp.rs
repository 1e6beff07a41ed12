//! Dangerous dependence on block properties (`block.timestamp`,
//! `block.number`, `block.difficulty`, `now`).
use vstd::prelude::*;

use crate::ast::{Expression, Function, Statement};
use crate::detector::{
    AnalysisContext, BaseDetector, DetectorCategory, DetectorId, Finding, FindingView, Severity,
    finding_view, finding_views,
};
use crate::text::{
    byte_len_u32, byte_length, chars_of, concat3, contains, has_substring, lowercase, same_text,
    to_lowercase,
};

verus! {

// ---------------------------------------------------------------------------
// What counts as reading a block property
// ---------------------------------------------------------------------------

/// A (lowercased) member name of `block` whose value a block producer can
/// influence.
pub open spec fn is_block_property(lower_member: Seq<char>) -> bool {
    ||| lower_member == "timestamp"@
    ||| lower_member == "number"@
    ||| lower_member == "difficulty"@
}

/// Whether the lowercased member name `lower` is that of a block property a
/// block producer can influence (see `is_block_property`).
pub fn is_block_property_name(lower: &Vec<char>) -> (r: bool)
    ensures
        r == is_block_property(lower@),
{
    same_text(lower, "timestamp") || same_text(lower, "number") || same_text(lower, "difficulty")
}

/// `e` is the identifier `name`.
pub open spec fn is_identifier(e: Expression, name: Seq<char>) -> bool {
    match e {
        Expression::Identifier(id) => id@ == name,
        _ => false,
    }
}

/// `e` reads `block.timestamp`, `block.number` or `block.difficulty` (member
/// names compared case-insensitively), or calls `now`, anywhere in the parts
/// of the expression that are looked into: member bases, callees and
/// arguments, both operands of binary operations and assignments, unary
/// operands, all three parts of conditionals, and indexed bases.
pub open spec fn reads_block_value(e: Expression) -> bool
    decreases e,
{
    match e {
        Expression::MemberAccess { expression, member } => {
            (is_identifier(*expression, "block"@) && is_block_property(lowercase(member@)))
                || reads_block_value(*expression)
        },
        Expression::FunctionCall { function, arguments } => {
            ||| is_identifier(*function, "now"@)
            ||| reads_block_value(*function)
            ||| any_reads_block_value(arguments@)
        },
        Expression::BinaryOperation { left, right } => reads_block_value(*left) || reads_block_value(
            *right,
        ),
        Expression::Assignment { left, right } => reads_block_value(*left) || reads_block_value(
            *right,
        ),
        Expression::UnaryOperation { operand } => reads_block_value(*operand),
        Expression::Conditional { condition, true_expression, false_expression } => {
            ||| reads_block_value(*condition)
            ||| reads_block_value(*true_expression)
            ||| reads_block_value(*false_expression)
        },
        Expression::IndexAccess { base, .. } => reads_block_value(*base),
        _ => false,
    }
}

/// Some expression of `es` reads a block property.
pub open spec fn any_reads_block_value(es: Seq<Expression>) -> bool
    decreases es,
{
    if es.len() == 0 {
        false
    } else {
        reads_block_value(es[0]) || any_reads_block_value(es.subrange(1, es.len() as int))
    }
}

proof fn lemma_any_reads_block_value(es: Seq<Expression>)
    ensures
        any_reads_block_value(es) <==> exists|i: int|
            0 <= i < es.len() && reads_block_value(#[trigger] es[i]),
    decreases es.len(),
{
    if es.len() > 0 {
        let rest = es.subrange(1, es.len() as int);
        lemma_any_reads_block_value(rest);
        if any_reads_block_value(rest) {
            let i = choose|i: int| 0 <= i < rest.len() && reads_block_value(#[trigger] rest[i]);
            assert(es[i + 1] == rest[i]);
        }
        if exists|i: int| 0 <= i < es.len() && reads_block_value(#[trigger] es[i]) {
            let i = choose|i: int| 0 <= i < es.len() && reads_block_value(#[trigger] es[i]);
            if i > 0 {
                assert(rest[i - 1] == es[i]);
            }
        }
    }
}

/// A branch or loop body is looked into only when it is a block.
pub open spec fn block_body_reads(s: Statement) -> bool
    decreases s,
{
    match s {
        Statement::Block(b) => any_statement_reads(b@),
        _ => false,
    }
}

/// `s` reads a block property in an expression statement, a variable's
/// initial value, a returned value, an `if` condition, or in the statements
/// of a block, of an `if` branch that is a block, or of a loop body that is
/// a block.
pub open spec fn statement_reads(s: Statement) -> bool
    decreases s,
{
    match s {
        Statement::Expression(e) => reads_block_value(e),
        Statement::Block(b) => any_statement_reads(b@),
        Statement::VariableDeclaration { initial_value: Some(e) } => reads_block_value(e),
        Statement::If { condition, then_branch, else_branch } => {
            ||| reads_block_value(condition)
            ||| block_body_reads(*then_branch)
            ||| match else_branch {
                Some(b) => block_body_reads(*b),
                None => false,
            }
        },
        Statement::For { body } => block_body_reads(*body),
        Statement::While { body } => block_body_reads(*body),
        Statement::Return { value: Some(e) } => reads_block_value(e),
        _ => false,
    }
}

/// Some statement of `ss` reads a block property.
pub open spec fn any_statement_reads(ss: Seq<Statement>) -> bool
    decreases ss,
{
    if ss.len() == 0 {
        false
    } else {
        statement_reads(ss[0]) || any_statement_reads(ss.subrange(1, ss.len() as int))
    }
}

proof fn lemma_any_statement_reads(ss: Seq<Statement>)
    ensures
        any_statement_reads(ss) <==> exists|i: int|
            0 <= i < ss.len() && statement_reads(#[trigger] ss[i]),
    decreases ss.len(),
{
    if ss.len() > 0 {
        let rest = ss.subrange(1, ss.len() as int);
        lemma_any_statement_reads(rest);
        if any_statement_reads(rest) {
            let i = choose|i: int| 0 <= i < rest.len() && statement_reads(#[trigger] rest[i]);
            assert(ss[i + 1] == rest[i]);
        }
        if exists|i: int| 0 <= i < ss.len() && statement_reads(#[trigger] ss[i]) {
            let i = choose|i: int| 0 <= i < ss.len() && statement_reads(#[trigger] ss[i]);
            if i > 0 {
                assert(rest[i - 1] == ss[i]);
            }
        }
    }
}

/// Whether the text `s` is exactly `lit`.
fn text_is(s: &String, lit: &str) -> (r: bool)
    ensures
        r == (s@ == lit@),
{
    same_text(&chars_of(s.as_str()), lit)
}

// ---------------------------------------------------------------------------
// The detector
// ---------------------------------------------------------------------------

/// Detects dangerous dependence on block properties.
pub struct BlockDependencyDetector {
    base: BaseDetector,
}

/// Words in a contract's (lowercased) source that show it uses time by
/// design: governance, timelocks, vesting, staking and reward schemes.
pub open spec fn uses_time_by_design_spec(lower: Seq<char>) -> bool {
    ||| has_substring(lower, "timelock"@)
    ||| has_substring(lower, "governance"@)
    ||| has_substring(lower, "proposal"@)
    ||| has_substring(lower, "voting"@)
    ||| has_substring(lower, "vesting"@)
    ||| has_substring(lower, "staking"@)
    ||| has_substring(lower, "yield"@)
    ||| has_substring(lower, "reward"@)
    ||| has_substring(lower, "rewardpertoken"@)
    ||| has_substring(lower, "lastupdate"@)
    ||| has_substring(lower, "lastrewardtime"@)
    ||| has_substring(lower, "periodfinish"@)
}

/// Whether the lowercased source text `lower` shows that the contract uses
/// time by design.
pub fn uses_time_by_design(lower: &Vec<char>) -> (r: bool)
    ensures
        r == uses_time_by_design_spec(lower@),
{
    contains(lower, "timelock") || contains(lower, "governance") || contains(lower, "proposal")
        || contains(lower, "voting") || contains(lower, "vesting") || contains(lower, "staking")
        || contains(lower, "yield") || contains(lower, "reward") || contains(lower, "rewardpertoken")
        || contains(lower, "lastupdate") || contains(lower, "lastrewardtime") || contains(
        lower,
        "periodfinish",
    )
}

/// The function `f` is reported: it has a body, and a statement of it reads
/// a block property.
pub open spec fn has_block_dependency(f: Function) -> bool {
    match f.body {
        Some(b) => any_statement_reads(b@),
        None => false,
    }
}

/// The message for a function named `name` whose dependency is of the
/// given kind.
pub open spec fn dependency_message(kind: Seq<char>, name: Seq<char>) -> Seq<char> {
    if kind == "time_boost"@ {
        "Function '"@ + name
            + "' calculates time-based boost using block.timestamp which miners can manipulate by ~15 seconds. This allows attackers to gain unfair advantages in reward calculations."@
    } else if kind == "timestamp_validation"@ {
        "Function '"@ + name
            + "' uses block.timestamp for validation without proper bounds, allowing manipulation of time-dependent security checks."@
    } else {
        "Function '"@ + name
            + "' has dangerous dependence on block timestamp or number which can be manipulated by miners within certain bounds (~15 seconds for timestamp)."@
    }
}

/// Whether `f` depends on a block property, and the kind of dependency:
/// every dependency found is of the general kind.
pub open spec fn dependency_of(f: Function) -> (bool, Seq<char>) {
    if has_block_dependency(f) {
        (true, "general"@)
    } else {
        (false, Seq::empty())
    }
}

/// The finding reported for the function `f`.
pub open spec fn block_dependency_finding(base: BaseDetector, f: Function) -> FindingView {
    finding_view(
        base.id@,
        dependency_message(dependency_of(f).1, f.name@),
        f.name_line as u32,
        f.name_column as u32,
        byte_len_u32(f.name@),
        base.default_severity,
    ).add_cwe(330).add_cwe(367).set_fix(
        "Avoid using block.timestamp or block.number for critical logic in function '"@ + f.name@
            + "'. Use Chainlink VRF for randomness, or implement time delays with sufficient tolerance for miner manipulation (~15 second buffer)."@,
    )
}

/// The findings for the functions `fs`, in order.
pub open spec fn block_dependency_reports(base: BaseDetector, fs: Seq<Function>) -> Seq<
    FindingView,
>
    decreases fs.len(),
{
    if fs.len() == 0 {
        seq![]
    } else {
        block_dependency_reports(base, fs.drop_last()) + if has_block_dependency(fs.last()) {
            seq![block_dependency_finding(base, fs.last())]
        } else {
            seq![]
        }
    }
}

/// Everything the detector reports on `ctx`: nothing for interfaces,
/// libraries and contracts that use time by design; otherwise one finding
/// per function with a block dependency.
pub open spec fn block_dependency_findings(base: BaseDetector, ctx: AnalysisContext) -> Seq<
    FindingView,
> {
    if ctx.traits.is_interface || ctx.traits.is_library || uses_time_by_design_spec(
        lowercase(ctx.source_code@),
    ) {
        seq![]
    } else {
        block_dependency_reports(base, ctx.functions@)
    }
}

/// The metadata the detector is made with.
pub open spec fn standard_metadata(m: BaseDetector) -> bool {
    &&& m.id@ == "block-dependency"@
    &&& m.name@ == "Block Dependency"@
    &&& m.description@
            == "Dangerous dependence on block properties including timestamp manipulation for time-based calculations"@
    &&& m.categories@ == seq![DetectorCategory::Timestamp, DetectorCategory::DeFi]
    &&& m.default_severity == Severity::Medium
    &&& m.enabled
}

impl BlockDependencyDetector {
    /// The detector's metadata.
    pub closed spec fn meta(&self) -> BaseDetector {
        self.base
    }

    /// The detector's identifier.
    pub fn id(&self) -> (r: DetectorId)
        ensures
            r@ == self.meta().id@,
    {
        self.base.copy_id()
    }

    /// The detector's name.
    pub fn name(&self) -> (r: &str)
        ensures
            r@ == self.meta().name@,
    {
        self.base.name_str()
    }

    /// The detector's description.
    pub fn description(&self) -> (r: &str)
        ensures
            r@ == self.meta().description@,
    {
        self.base.description_str()
    }

    /// The severity of the detector's findings unless a finding says
    /// otherwise.
    pub fn default_severity(&self) -> (r: Severity)
        ensures
            r == self.meta().default_severity,
    {
        self.base.default_severity
    }

    /// The detector's categories.
    pub fn categories(&self) -> (r: Vec<DetectorCategory>)
        ensures
            r@ == self.meta().categories@,
    {
        self.base.copy_categories()
    }

    /// Whether the detector is enabled.
    pub fn is_enabled(&self) -> (r: bool)
        ensures
            r == self.meta().enabled,
    {
        self.base.enabled
    }

    /// The block-dependency detector.
    pub fn new() -> (r: Self)
        ensures
            standard_metadata(r.meta()),
    {
        BlockDependencyDetector {
            base: BaseDetector::new(
                DetectorId(String::from_str("block-dependency")),
                String::from_str("Block Dependency"),
                String::from_str(
                    "Dangerous dependence on block properties including timestamp manipulation for time-based calculations",
                ),
                vec![DetectorCategory::Timestamp, DetectorCategory::DeFi],
                Severity::Medium,
            ),
        }
    }

    /// Whether `expr` reads a block property (see `reads_block_value`).
    pub fn expression_uses_timestamp(&self, expr: &Expression) -> (r: bool)
        ensures
            r == reads_block_value(*expr),
        decreases expr,
    {
        match expr {
            Expression::MemberAccess { expression, member } => {
                if let Expression::Identifier(id) = &**expression {
                    if text_is(id, "block") {
                        if is_block_property_name(&to_lowercase(&chars_of(member.as_str()))) {
                            return true;
                        }
                    }
                }
                self.expression_uses_timestamp(expression)
            },
            Expression::FunctionCall { function, arguments } => {
                if let Expression::Identifier(id) = &**function {
                    if text_is(id, "now") {
                        return true;
                    }
                }
                if self.expression_uses_timestamp(function) {
                    return true;
                }
                self.arguments_use_timestamp(arguments)
            },
            Expression::BinaryOperation { left, right } => {
                self.expression_uses_timestamp(left) || self.expression_uses_timestamp(right)
            },
            Expression::Assignment { left, right } => {
                self.expression_uses_timestamp(left) || self.expression_uses_timestamp(right)
            },
            Expression::UnaryOperation { operand } => self.expression_uses_timestamp(operand),
            Expression::Conditional { condition, true_expression, false_expression } => {
                self.expression_uses_timestamp(condition) || self.expression_uses_timestamp(
                    true_expression,
                ) || self.expression_uses_timestamp(false_expression)
            },
            Expression::IndexAccess { base, .. } => self.expression_uses_timestamp(base),
            _ => false,
        }
    }

    /// Whether some argument reads a block property.
    fn arguments_use_timestamp(&self, arguments: &Vec<Expression>) -> (r: bool)
        ensures
            r == any_reads_block_value(arguments@),
        decreases arguments,
    {
        proof {
            lemma_any_reads_block_value(arguments@);
        }
        let mut i: usize = 0;
        while i < arguments.len()
            invariant
                i <= arguments@.len(),
                forall|j: int| 0 <= j < i ==> !reads_block_value(#[trigger] arguments@[j]),
            decreases arguments@.len() - i,
        {
            if self.expression_uses_timestamp(&arguments[i]) {
                proof {
                    lemma_any_reads_block_value(arguments@);
                    assert(reads_block_value(arguments@[i as int]));
                }
                return true;
            }
            i = i + 1;
        }
        false
    }

    /// Whether a block of statements used as a branch or loop body reads a
    /// block property (see `block_body_reads`).
    fn body_uses_timestamp(&self, body: &Statement) -> (r: bool)
        ensures
            r == block_body_reads(*body),
        decreases body,
    {
        match body {
            Statement::Block(b) => self.check_statements_for_timestamp_use(b),
            _ => false,
        }
    }

    /// Whether some statement of `statements` reads a block property (see
    /// `statement_reads`).
    pub fn check_statements_for_timestamp_use(&self, statements: &Vec<Statement>) -> (r: bool)
        ensures
            r == any_statement_reads(statements@),
        decreases statements,
    {
        proof {
            lemma_any_statement_reads(statements@);
        }
        let mut i: usize = 0;
        while i < statements.len()
            invariant
                i <= statements@.len(),
                forall|j: int| 0 <= j < i ==> !statement_reads(#[trigger] statements@[j]),
            decreases statements@.len() - i,
        {
            if self.statement_uses_timestamp(&statements[i]) {
                proof {
                    lemma_any_statement_reads(statements@);
                    assert(statement_reads(statements@[i as int]));
                }
                return true;
            }
            i = i + 1;
        }
        false
    }

    fn statement_uses_timestamp(&self, stmt: &Statement) -> (r: bool)
        ensures
            r == statement_reads(*stmt),
        decreases stmt,
    {
        match stmt {
            Statement::Expression(expr) => self.expression_uses_timestamp(expr),
            Statement::Block(b) => self.check_statements_for_timestamp_use(b),
            Statement::VariableDeclaration { initial_value: Some(expr) } => {
                self.expression_uses_timestamp(expr)
            },
            Statement::If { condition, then_branch, else_branch } => {
                if self.expression_uses_timestamp(condition) {
                    return true;
                }
                if self.body_uses_timestamp(then_branch) {
                    return true;
                }
                match else_branch {
                    Some(b) => self.body_uses_timestamp(b),
                    None => false,
                }
            },
            Statement::For { body } => self.body_uses_timestamp(body),
            Statement::While { body } => self.body_uses_timestamp(body),
            Statement::Return { value: Some(expr) } => self.expression_uses_timestamp(expr),
            _ => false,
        }
    }

    /// Whether `function` depends on a block property, with the kind of
    /// dependency (see `dependency_of`).
    pub fn has_timestamp_dependency(&self, function: &Function) -> (r: Option<(bool, String)>)
        ensures
            r matches Some((b, kind)) && b == dependency_of(*function).0 && kind@ == dependency_of(
                *function,
            ).1,
    {
        if let Some(body) = &function.body {
            if self.check_statements_for_timestamp_use(body) {
                return Some((true, String::from_str("general")));
            }
        }
        Some((false, String::new()))
    }

    /// The message for `function` with a dependency of the given kind (see
    /// `dependency_message`).
    fn dependency_message_for(&self, function: &Function, kind: &String) -> (r: String)
        ensures
            r@ == dependency_message(kind@, function.name@),
    {
        if text_is(kind, "time_boost") {
            concat3(
                "Function '",
                function.name.as_str(),
                "' calculates time-based boost using block.timestamp which miners can manipulate by ~15 seconds. This allows attackers to gain unfair advantages in reward calculations.",
            )
        } else if text_is(kind, "timestamp_validation") {
            concat3(
                "Function '",
                function.name.as_str(),
                "' uses block.timestamp for validation without proper bounds, allowing manipulation of time-dependent security checks.",
            )
        } else {
            concat3(
                "Function '",
                function.name.as_str(),
                "' has dangerous dependence on block timestamp or number which can be manipulated by miners within certain bounds (~15 seconds for timestamp).",
            )
        }
    }

    fn report(&self, function: &Function, kind: &String) -> (r: Finding)
        requires
            kind@ == dependency_of(*function).1,
        ensures
            r@ == block_dependency_finding(self.meta(), *function),
    {
        let message = self.dependency_message_for(function, kind);
        let fix = concat3(
            "Avoid using block.timestamp or block.number for critical logic in function '",
            function.name.as_str(),
            "'. Use Chainlink VRF for randomness, or implement time delays with sufficient tolerance for miner manipulation (~15 second buffer).",
        );
        self.base.create_finding(
            message,
            function.name_line as u32,
            function.name_column as u32,
            byte_length(&function.name),
        ).with_cwe(330).with_cwe(367).with_fix_suggestion(fix)
    }

    /// The findings of this detector on `ctx` (see
    /// `block_dependency_findings`), before the project-wide false-positive
    /// filter, which this library does not apply.
    pub fn detect(&self, ctx: &AnalysisContext) -> (r: Vec<Finding>)
        ensures
            finding_views(r@) == block_dependency_findings(self.meta(), *ctx),
    {
        let mut findings: Vec<Finding> = Vec::new();
        if ctx.traits.is_interface || ctx.traits.is_library {
            assert(finding_views(findings@) =~= seq![]);
            return findings;
        }
        let lower = to_lowercase(&chars_of(ctx.source_code.as_str()));
        if uses_time_by_design(&lower) {
            assert(finding_views(findings@) =~= seq![]);
            return findings;
        }
        let mut i: usize = 0;
        assert(ctx.functions@.take(0) =~= seq![]);
        while i < ctx.functions.len()
            invariant
                i <= ctx.functions@.len(),
                finding_views(findings@) == block_dependency_reports(
                    self.meta(),
                    ctx.functions@.take(i as int),
                ),
            decreases ctx.functions@.len() - i,
        {
            let function = &ctx.functions[i];
            let ghost prev = findings@;
            proof {
                assert(ctx.functions@.take(i + 1).drop_last() =~= ctx.functions@.take(i as int));
            }
            if let Some((has_dependency, manipulation_type)) = self.has_timestamp_dependency(
                function,
            ) {
                if has_dependency {
                    let f = self.report(function, &manipulation_type);
                    findings.push(f);
                    assert(finding_views(findings@) =~= finding_views(prev).push(f@));
                } else {
                    assert(finding_views(findings@) =~= finding_views(prev)
                        + Seq::<FindingView>::empty());
                }
            }
            i = i + 1;
        }
        assert(ctx.functions@.take(i as int) =~= ctx.functions@);
        findings
    }
}

impl Default for BlockDependencyDetector {
    /// The same detector as `new` gives.
    fn default() -> (r: Self)
        ensures
            standard_metadata(r.meta()),
    {
        Self::new()
    }
}

// ---------------------------------------------------------------------------
// Laws
// ---------------------------------------------------------------------------

proof fn lemma_reports_carry_id(base: BaseDetector, fs: Seq<Function>)
    ensures
        forall|k: int|
            0 <= k < block_dependency_reports(base, fs).len() ==> (#[trigger] block_dependency_reports(
                base,
                fs,
            )[k]).detector_id == base.id@,
    decreases fs.len(),
{
    if fs.len() > 0 {
        lemma_reports_carry_id(base, fs.drop_last());
    }
}

/// Every finding of the detector carries the detector's identifier.
pub proof fn law_findings_carry_detector_id(d: BlockDependencyDetector, ctx: AnalysisContext)
    ensures
        forall|k: int|
            0 <= k < block_dependency_findings(d.meta(), ctx).len() ==> (
            #[trigger] block_dependency_findings(d.meta(), ctx)[k]).detector_id == d.meta().id@,
{
    lemma_reports_carry_id(d.meta(), ctx.functions@);
}

/// Interfaces, libraries, and contracts whose source mentions governance,
/// timelocks, vesting, staking or rewards get no findings.
pub proof fn law_time_by_design_not_reported(d: BlockDependencyDetector, ctx: AnalysisContext)
    requires
        ctx.traits.is_interface || ctx.traits.is_library || uses_time_by_design_spec(
            lowercase(ctx.source_code@),
        ),
    ensures
        block_dependency_findings(d.meta(), ctx) == Seq::<FindingView>::empty(),
{
}

proof fn lemma_reports_count(base: BaseDetector, fs: Seq<Function>)
    ensures
        block_dependency_reports(base, fs).len() <= fs.len(),
        (forall|i: int| 0 <= i < fs.len() ==> !has_block_dependency(#[trigger] fs[i]))
            ==> block_dependency_reports(base, fs).len() == 0,
        (exists|i: int| 0 <= i < fs.len() && has_block_dependency(#[trigger] fs[i]))
            ==> block_dependency_reports(base, fs).len() > 0,
    decreases fs.len(),
{
    if fs.len() > 0 {
        let init = fs.drop_last();
        lemma_reports_count(base, init);
        if forall|i: int| 0 <= i < fs.len() ==> !has_block_dependency(#[trigger] fs[i]) {
            assert forall|i: int| 0 <= i < init.len() implies !has_block_dependency(
                #[trigger] init[i],
            ) by {
                assert(init[i] == fs[i]);
            }
            assert(!has_block_dependency(fs[fs.len() - 1]));
        }
        if exists|i: int| 0 <= i < fs.len() && has_block_dependency(#[trigger] fs[i]) {
            let i = choose|i: int| 0 <= i < fs.len() && has_block_dependency(#[trigger] fs[i]);
            if i < fs.len() - 1 {
                assert(init[i] == fs[i]);
            }
        }
    }
}

/// Outside the exempt contracts, the detector reports exactly when some
/// function reads a block property, at most once per function.
pub proof fn law_reported_iff_some_function_depends(
    d: BlockDependencyDetector,
    ctx: AnalysisContext,
)
    requires
        !ctx.traits.is_interface,
        !ctx.traits.is_library,
        !uses_time_by_design_spec(lowercase(ctx.source_code@)),
    ensures
        block_dependency_findings(d.meta(), ctx).len() > 0 <==> exists|i: int|
            0 <= i < ctx.functions@.len() && has_block_dependency(#[trigger] ctx.functions@[i]),
        block_dependency_findings(d.meta(), ctx).len() <= ctx.functions@.len(),
{
    lemma_reports_count(d.meta(), ctx.functions@);
}

/// Every dependency the detector finds is reported with the general
/// message.
pub proof fn law_dependencies_reported_as_general(f: Function)
    requires
        has_block_dependency(f),
    ensures
        dependency_message(dependency_of(f).1, f.name@) == "Function '"@ + f.name@
            + "' has dangerous dependence on block timestamp or number which can be manipulated by miners within certain bounds (~15 seconds for timestamp)."@,
{
    reveal_strlit("general");
    reveal_strlit("time_boost");
    reveal_strlit("timestamp_validation");
    assert("general"@[0] != "time_boost"@[0]);
    assert("general"@.len() != "timestamp_validation"@.len());
}

/// A read of a block property inside an operand, an assigned value, an
/// indexed base or a member base is a read of the enclosing expression.
pub proof fn law_block_read_propagates(x: Expression, other: Expression, member: String)
    requires
        reads_block_value(x),
    ensures
        reads_block_value(Expression::BinaryOperation { left: Box::new(x), right: Box::new(other) }),
        reads_block_value(Expression::BinaryOperation { left: Box::new(other), right: Box::new(x) }),
        reads_block_value(Expression::Assignment { left: Box::new(other), right: Box::new(x) }),
        reads_block_value(Expression::UnaryOperation { operand: Box::new(x) }),
        reads_block_value(Expression::IndexAccess { base: Box::new(x), index: None }),
        reads_block_value(Expression::MemberAccess { expression: Box::new(x), member }),
{
}

proof fn lemma_reports_include(base: BaseDetector, fs: Seq<Function>, i: int)
    requires
        0 <= i < fs.len(),
        has_block_dependency(fs[i]),
    ensures
        block_dependency_reports(base, fs).contains(block_dependency_finding(base, fs[i])),
    decreases fs.len(),
{
    let init = fs.drop_last();
    let prev = block_dependency_reports(base, init);
    if i == fs.len() - 1 {
        assert(block_dependency_reports(base, fs)[prev.len() as int] == block_dependency_finding(
            base,
            fs[i],
        ));
    } else {
        assert(init[i] == fs[i]);
        lemma_reports_include(base, init, i);
        let k = choose|k: int| 0 <= k < prev.len() && prev[k] == block_dependency_finding(base, fs[i]);
        assert(block_dependency_reports(base, fs)[k] == prev[k]);
    }
}

/// A statement reads a block property when its own expression does: an
/// expression statement, a variable's initial value, a returned value, and
/// the condition of an `if`, whatever the branches of that `if` hold.
pub proof fn law_statement_expression_reads(
    e: Expression,
    then_branch: Box<Statement>,
    else_branch: Option<Box<Statement>>,
)
    requires
        reads_block_value(e),
    ensures
        statement_reads(Statement::Expression(e)),
        statement_reads(Statement::VariableDeclaration { initial_value: Some(e) }),
        statement_reads(Statement::Return { value: Some(e) }),
        statement_reads(Statement::If { condition: e, then_branch, else_branch }),
{
}

/// A statement that reads a block property makes every block that holds it
/// read one, and so every `if` with such a block as either branch and every
/// loop with such a block as its body, whatever the `if` condition is.
pub proof fn law_nested_statement_reads(
    bs: Vec<Statement>,
    k: int,
    condition: Expression,
    other: Box<Statement>,
)
    requires
        0 <= k < bs@.len(),
        statement_reads(bs@[k]),
    ensures
        statement_reads(Statement::Block(bs)),
        statement_reads(
            Statement::If {
                condition,
                then_branch: Box::new(Statement::Block(bs)),
                else_branch: None,
            },
        ),
        statement_reads(
            Statement::If {
                condition,
                then_branch: other,
                else_branch: Some(Box::new(Statement::Block(bs))),
            },
        ),
        statement_reads(Statement::For { body: Box::new(Statement::Block(bs)) }),
        statement_reads(Statement::While { body: Box::new(Statement::Block(bs)) }),
{
    lemma_any_statement_reads(bs@);
}

/// `block.timestamp`, `block.number` and `block.difficulty` (the member in
/// any case) and every call of `now` read a block property.
pub proof fn law_block_properties_read(
    block_name: String,
    member: String,
    now_name: String,
    arguments: Vec<Expression>,
)
    requires
        block_name@ == "block"@,
        now_name@ == "now"@,
        lowercase(member@) == "timestamp"@ || lowercase(member@) == "number"@ || lowercase(
            member@,
        ) == "difficulty"@,
    ensures
        reads_block_value(
            Expression::MemberAccess {
                expression: Box::new(Expression::Identifier(block_name)),
                member,
            },
        ),
        reads_block_value(
            Expression::FunctionCall {
                function: Box::new(Expression::Identifier(now_name)),
                arguments,
            },
        ),
{
}

/// Outside interfaces, libraries and contracts that use time by design, a
/// function whose body holds, at its top level, an `if` whose condition
/// reads a block property, or an expression statement, variable
/// initialisation or `return` that reads one, is reported with the general
/// message.
pub proof fn law_direct_block_read_reported(
    d: BlockDependencyDetector,
    ctx: AnalysisContext,
    i: int,
    j: int,
)
    requires
        !ctx.traits.is_interface,
        !ctx.traits.is_library,
        !uses_time_by_design_spec(lowercase(ctx.source_code@)),
        0 <= i < ctx.functions@.len(),
        ctx.functions@[i].body matches Some(b) && 0 <= j < b@.len() && match b@[j] {
            Statement::If { condition, .. } => reads_block_value(condition),
            Statement::Expression(e) => reads_block_value(e),
            Statement::VariableDeclaration { initial_value: Some(e) } => reads_block_value(e),
            Statement::Return { value: Some(e) } => reads_block_value(e),
            _ => false,
        },
    ensures
        block_dependency_findings(d.meta(), ctx).contains(
            block_dependency_finding(d.meta(), ctx.functions@[i]),
        ),
        block_dependency_finding(d.meta(), ctx.functions@[i]).message == "Function '"@
            + ctx.functions@[i].name@
            + "' has dangerous dependence on block timestamp or number which can be manipulated by miners within certain bounds (~15 seconds for timestamp)."@,
{
    let f = ctx.functions@[i];
    let b = f.body->0;
    lemma_any_statement_reads(b@);
    assert(statement_reads(b@[j]));
    assert(has_block_dependency(f));
    lemma_reports_include(d.meta(), ctx.functions@, i);
    law_dependencies_reported_as_general(f);
}

/// Outside interfaces and libraries, a contract whose lowercased source
/// mentions none of the time-by-design words (timelock, governance,
/// proposal, voting, vesting, staking, yield, reward, rewardpertoken,
/// lastupdate, lastrewardtime, periodfinish) reports every function that
/// depends on a block property; one that mentions any of them reports
/// nothing.
pub proof fn law_time_by_design_words(d: BlockDependencyDetector, ctx: AnalysisContext, i: int)
    requires
        !ctx.traits.is_interface,
        !ctx.traits.is_library,
        0 <= i < ctx.functions@.len(),
        has_block_dependency(ctx.functions@[i]),
    ensures
        ({
            let lower = lowercase(ctx.source_code@);
            let by_design = {
                ||| has_substring(lower, "timelock"@)
                ||| has_substring(lower, "governance"@)
                ||| has_substring(lower, "proposal"@)
                ||| has_substring(lower, "voting"@)
                ||| has_substring(lower, "vesting"@)
                ||| has_substring(lower, "staking"@)
                ||| has_substring(lower, "yield"@)
                ||| has_substring(lower, "reward"@)
                ||| has_substring(lower, "rewardpertoken"@)
                ||| has_substring(lower, "lastupdate"@)
                ||| has_substring(lower, "lastrewardtime"@)
                ||| has_substring(lower, "periodfinish"@)
            };
            &&& by_design ==> block_dependency_findings(d.meta(), ctx).len() == 0
            &&& !by_design ==> block_dependency_findings(d.meta(), ctx).contains(
                block_dependency_finding(d.meta(), ctx.functions@[i]),
            )
        }),
{
    lemma_reports_include(d.meta(), ctx.functions@, i);
}

/// A read of a block property anywhere in an assignment's target, in any
/// of the three parts of a conditional expression, in a callee or in any
/// argument of a call, is a read of the enclosing expression.
pub proof fn law_block_read_propagates_through_calls(
    x: Expression,
    a: Expression,
    b: Expression,
    arguments: Vec<Expression>,
    k: int,
)
    requires
        reads_block_value(x),
        0 <= k < arguments@.len(),
        arguments@[k] == x,
    ensures
        reads_block_value(Expression::Assignment { left: Box::new(x), right: Box::new(a) }),
        reads_block_value(
            Expression::Conditional {
                condition: Box::new(x),
                true_expression: Box::new(a),
                false_expression: Box::new(b),
            },
        ),
        reads_block_value(
            Expression::Conditional {
                condition: Box::new(a),
                true_expression: Box::new(x),
                false_expression: Box::new(b),
            },
        ),
        reads_block_value(
            Expression::Conditional {
                condition: Box::new(a),
                true_expression: Box::new(b),
                false_expression: Box::new(x),
            },
        ),
        reads_block_value(Expression::FunctionCall { function: Box::new(x), arguments }),
        reads_block_value(Expression::FunctionCall { function: Box::new(a), arguments }),
{
    lemma_any_reads_block_value(arguments@);
}

/// A member of a plain identifier reads a block property exactly when the
/// identifier is `block` and the member, lowercased, is `timestamp`,
/// `number` or `difficulty`; a call of a plain identifier reads one exactly
/// when the callee is `now` or some argument reads one.
pub proof fn law_block_reads_on_identifiers(x: String, member: String, arguments: Vec<Expression>)
    ensures
        reads_block_value(
            Expression::MemberAccess { expression: Box::new(Expression::Identifier(x)), member },
        ) <==> x@ == "block"@ && (lowercase(member@) == "timestamp"@ || lowercase(member@)
            == "number"@ || lowercase(member@) == "difficulty"@),
        reads_block_value(
            Expression::FunctionCall { function: Box::new(Expression::Identifier(x)), arguments },
        ) <==> x@ == "now"@ || exists|k: int|
            0 <= k < arguments@.len() && reads_block_value(#[trigger] arguments@[k]),
        !reads_block_value(Expression::Identifier(x)),
{
    lemma_any_reads_block_value(arguments@);
    let id = Expression::Identifier(x);
    assert(!reads_block_value(id));
    assert(reads_block_value(Expression::MemberAccess { expression: Box::new(id), member })
        == (is_identifier(id, "block"@) && is_block_property(lowercase(member@))));
}

} // verus!
