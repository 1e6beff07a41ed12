//! The part of a parsed Solidity contract that the detectors read.
use vstd::prelude::*;

verus! {

/// Visibility of a function.
#[derive(PartialEq, Eq, Structural, Debug, Clone, Copy)]
pub enum Visibility {
    Public,
    External,
    Internal,
    Private,
}

/// A function parameter: its name, if it has one, and its type as the
/// parser's debug rendering of the type gives it.
pub struct Parameter {
    pub name: Option<String>,
    pub type_text: String,
}

/// An expression, down to the shapes the detectors tell apart.
pub enum Expression {
    Identifier(String),
    MemberAccess { expression: Box<Expression>, member: String },
    FunctionCall { function: Box<Expression>, arguments: Vec<Expression> },
    BinaryOperation { left: Box<Expression>, right: Box<Expression> },
    Assignment { left: Box<Expression>, right: Box<Expression> },
    UnaryOperation { operand: Box<Expression> },
    Conditional {
        condition: Box<Expression>,
        true_expression: Box<Expression>,
        false_expression: Box<Expression>,
    },
    IndexAccess { base: Box<Expression>, index: Option<Box<Expression>> },
    /// Literals and every other form.
    Other,
}

/// A statement, down to the shapes the detectors tell apart.
pub enum Statement {
    Expression(Expression),
    VariableDeclaration { initial_value: Option<Expression> },
    Block(Vec<Statement>),
    If {
        condition: Expression,
        then_branch: Box<Statement>,
        else_branch: Option<Box<Statement>>,
    },
    For { body: Box<Statement> },
    While { body: Box<Statement> },
    TryStatement { try_body: Vec<Statement>, catch_clauses: Vec<Vec<Statement>> },
    Return { value: Option<Expression> },
    /// Every other form.
    Other,
}

/// A function of the contract under analysis.
///
/// Lines and columns are those the parser reports; `start_line` and
/// `end_line` index the lines of the contract's source text.
/// `access_modifier_guarded` holds what the project-wide access-control
/// modifier check says of the function's source text.
pub struct Function {
    pub name: String,
    pub name_line: usize,
    pub name_column: usize,
    pub start_line: usize,
    pub end_line: usize,
    pub visibility: Visibility,
    pub modifiers: Vec<String>,
    pub parameters: Vec<Parameter>,
    pub body: Option<Vec<Statement>>,
    pub access_modifier_guarded: bool,
}

} // verus!
