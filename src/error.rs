use vstd::prelude::*;

verus! {

/// Every failure a calculator command can report.
#[derive(Clone, Copy, Debug, PartialEq, Eq, Structural)]
pub enum CalcError {
    DivisionByZero,
    InvalidOperator,
    InvalidNumber,
    InvalidExpression,
    InvalidInput,
    InvalidChoice,
}

/// The human-readable text shown for an error.
pub open spec fn message_text(e: CalcError) -> Seq<char> {
    match e {
        CalcError::DivisionByZero => "Division by zero"@,
        CalcError::InvalidOperator => "Invalid operator"@,
        CalcError::InvalidNumber => "Invalid number"@,
        CalcError::InvalidExpression => "Invalid expression"@,
        CalcError::InvalidInput => "Invalid input"@,
        CalcError::InvalidChoice => "Invalid choice"@,
    }
}

impl CalcError {
    pub fn message(&self) -> (r: &'static str)
        ensures
            r@ == message_text(*self),
    {
        match self {
            CalcError::DivisionByZero => "Division by zero",
            CalcError::InvalidOperator => "Invalid operator",
            CalcError::InvalidNumber => "Invalid number",
            CalcError::InvalidExpression => "Invalid expression",
            CalcError::InvalidInput => "Invalid input",
            CalcError::InvalidChoice => "Invalid choice",
        }
    }
}

} // verus!
