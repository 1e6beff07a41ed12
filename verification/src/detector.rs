//! What every detector shares: its identity, severity and categories, the
//! findings it reports, and the context it analyses.
use vstd::prelude::*;

use crate::ast::Function;
use crate::text::{chars_of, join_lines, line_span, lines, span_ok, split_lines};

verus! {

/// How serious a finding is.
#[derive(PartialEq, Eq, Structural, Debug, Clone, Copy)]
pub enum Severity {
    Info,
    Low,
    Medium,
    High,
    Critical,
}

/// The vulnerability classes a detector belongs to.
#[derive(PartialEq, Eq, Structural, Debug, Clone, Copy)]
pub enum DetectorCategory {
    AccessControl,
    CrossChain,
    DeFi,
    ExternalCalls,
    Logic,
    Timestamp,
}

/// A detector's identifier, such as `"block-dependency"`.
pub struct DetectorId(pub String);

impl View for DetectorId {
    type V = Seq<char>;

    open spec fn view(&self) -> Seq<char> {
        self.0@
    }
}

/// The metadata of a detector.
pub struct BaseDetector {
    pub id: DetectorId,
    pub name: String,
    pub description: String,
    pub categories: Vec<DetectorCategory>,
    pub default_severity: Severity,
    pub enabled: bool,
}

impl BaseDetector {
    /// A detector with the given metadata, enabled.
    pub fn new(
        id: DetectorId,
        name: String,
        description: String,
        categories: Vec<DetectorCategory>,
        default_severity: Severity,
    ) -> (r: Self)
        ensures
            r.id@ == id@,
            r.name@ == name@,
            r.description@ == description@,
            r.categories@ == categories@,
            r.default_severity == default_severity,
            r.enabled,
    {
        BaseDetector { id, name, description, categories, default_severity, enabled: true }
    }

    /// A copy of the detector's identifier.
    pub fn copy_id(&self) -> (r: DetectorId)
        ensures
            r@ == self.id@,
    {
        DetectorId(self.id.0.clone())
    }

    /// The detector's name.
    pub fn name_str(&self) -> (r: &str)
        ensures
            r@ == self.name@,
    {
        self.name.as_str()
    }

    /// The detector's description.
    pub fn description_str(&self) -> (r: &str)
        ensures
            r@ == self.description@,
    {
        self.description.as_str()
    }

    /// A copy of the detector's categories.
    pub fn copy_categories(&self) -> (r: Vec<DetectorCategory>)
        ensures
            r@ == self.categories@,
    {
        let mut r: Vec<DetectorCategory> = Vec::new();
        let mut i: usize = 0;
        while i < self.categories.len()
            invariant
                i <= self.categories@.len(),
                r@ == self.categories@.take(i as int),
            decreases self.categories@.len() - i,
        {
            r.push(self.categories[i]);
            i = i + 1;
            assert(r@ =~= self.categories@.take(i as int));
        }
        assert(self.categories@.take(i as int) =~= self.categories@);
        r
    }

    /// A finding of this detector at the given place, with its default
    /// severity.
    pub fn create_finding(&self, message: String, line: u32, column: u32, length: u32) -> (r:
        Finding)
        ensures
            r@ == finding_view(self.id@, message@, line, column, length, self.default_severity),
    {
        self.create_finding_with_severity(message, line, column, length, self.default_severity)
    }

    /// A finding of this detector at the given place, with the given
    /// severity.
    pub fn create_finding_with_severity(
        &self,
        message: String,
        line: u32,
        column: u32,
        length: u32,
        severity: Severity,
    ) -> (r: Finding)
        ensures
            r@ == finding_view(self.id@, message@, line, column, length, severity),
    {
        Finding {
            detector_id: DetectorId(self.id.0.clone()),
            message,
            line,
            column,
            length,
            severity,
            cwe_ids: Vec::new(),
            fix_suggestion: None,
        }
    }
}

/// A reported issue.
pub struct Finding {
    pub detector_id: DetectorId,
    pub message: String,
    pub line: u32,
    pub column: u32,
    pub length: u32,
    pub severity: Severity,
    pub cwe_ids: Vec<u32>,
    pub fix_suggestion: Option<String>,
}

/// The model of a finding.
pub struct FindingView {
    pub detector_id: Seq<char>,
    pub message: Seq<char>,
    pub line: u32,
    pub column: u32,
    pub length: u32,
    pub severity: Severity,
    pub cwe_ids: Seq<u32>,
    pub fix_suggestion: Option<Seq<char>>,
}

impl View for Finding {
    type V = FindingView;

    open spec fn view(&self) -> FindingView {
        FindingView {
            detector_id: self.detector_id@,
            message: self.message@,
            line: self.line,
            column: self.column,
            length: self.length,
            severity: self.severity,
            cwe_ids: self.cwe_ids@,
            fix_suggestion: match self.fix_suggestion {
                Some(s) => Some(s@),
                None => None,
            },
        }
    }
}

/// A fresh finding: no CWE references and no fix suggestion yet.
pub open spec fn finding_view(
    detector_id: Seq<char>,
    message: Seq<char>,
    line: u32,
    column: u32,
    length: u32,
    severity: Severity,
) -> FindingView {
    FindingView {
        detector_id,
        message,
        line,
        column,
        length,
        severity,
        cwe_ids: seq![],
        fix_suggestion: None,
    }
}

impl FindingView {
    /// This finding with one more CWE reference.
    pub open spec fn add_cwe(self, cwe: u32) -> FindingView {
        FindingView { cwe_ids: self.cwe_ids.push(cwe), ..self }
    }

    /// This finding with the given fix suggestion.
    pub open spec fn set_fix(self, fix: Seq<char>) -> FindingView {
        FindingView { fix_suggestion: Some(fix), ..self }
    }
}

impl Finding {
    /// This finding with one more CWE reference.
    pub fn with_cwe(self, cwe: u32) -> (r: Finding)
        ensures
            r@ == self@.add_cwe(cwe),
    {
        let mut f = self;
        f.cwe_ids.push(cwe);
        f
    }

    /// This finding with the given fix suggestion.
    pub fn with_fix_suggestion(self, fix: String) -> (r: Finding)
        ensures
            r@ == self@.set_fix(fix@),
    {
        let mut f = self;
        f.fix_suggestion = Some(fix);
        f
    }
}

/// The models of a sequence of findings.
pub open spec fn finding_views(fs: Seq<Finding>) -> Seq<FindingView> {
    fs.map_values(|f: Finding| f@)
}

/// What the project-wide contract classification says of the contract under
/// analysis.
pub struct ContractTraits {
    pub is_interface: bool,
    pub is_library: bool,
    pub is_proxy: bool,
    pub is_interface_only: bool,
    pub is_test: bool,
}

/// The contract under analysis: the source text of its file, its own text,
/// its functions, and how it is classified.
pub struct AnalysisContext {
    pub source_code: String,
    pub contract_source: String,
    pub functions: Vec<Function>,
    pub traits: ContractTraits,
}

/// The line span of `f` can be taken from the file `src` (see `span_ok`).
pub open spec fn function_span_ok(src: Seq<char>, f: Function) -> bool {
    span_ok(src, f.start_line as int, f.end_line as int)
}

/// Every function with a body has a line span that can be taken from the
/// file's source.
pub open spec fn body_spans_ok(ctx: AnalysisContext) -> bool {
    forall|i: int|
        0 <= i < ctx.functions@.len() && (#[trigger] ctx.functions@[i]).body is Some
            ==> function_span_ok(ctx.source_code@, ctx.functions@[i])
}

/// The number of lines of `src` (see `lines`).
pub fn line_count(src: &String) -> (r: usize)
    ensures
        r == lines(src@).len(),
{
    split_lines(&chars_of(src.as_str())).len()
}

/// Whether the span `start..=end` can be taken from a text of `n` lines.
pub fn span_fits(n: usize, start: usize, end: usize) -> (r: bool)
    ensures
        r == (start < n && end < n ==> start <= end + 1),
{
    !(start < n && end < n) || start <= end || start - end == 1
}

/// Whether every function with a body has a span that can be taken (see
/// `body_spans_ok`).
pub fn body_spans_fit(ctx: &AnalysisContext) -> (r: bool)
    ensures
        r == body_spans_ok(*ctx),
{
    let n = line_count(&ctx.source_code);
    let mut i: usize = 0;
    while i < ctx.functions.len()
        invariant
            i <= ctx.functions@.len(),
            n == lines(ctx.source_code@).len(),
            forall|j: int|
                0 <= j < i && (#[trigger] ctx.functions@[j]).body is Some ==> function_span_ok(
                    ctx.source_code@,
                    ctx.functions@[j],
                ),
        decreases ctx.functions@.len() - i,
    {
        let f = &ctx.functions[i];
        if f.body.is_some() && !span_fits(n, f.start_line, f.end_line) {
            assert(!function_span_ok(ctx.source_code@, ctx.functions@[i as int]));
            return false;
        }
        i = i + 1;
    }
    true
}

/// The source text of `f` in the file `src`: its lines joined with `'\n'`.
pub open spec fn plain_function_source(src: Seq<char>, f: Function) -> Seq<char> {
    join_lines(line_span(src, f.start_line as int, f.end_line as int))
}

} // verus!
