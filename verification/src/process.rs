//! Plain descriptions of a command to run and of what a finished command
//! reported. The library builds the former and reads the latter; running the
//! command is the caller's business.

use vstd::prelude::*;
use vstd::string::*;
use crate::text::{concat3, signed_decimal, signed_decimal_string, views};

verus! {

/// A command line: the program to start and its arguments, in order.
#[derive(Debug, Clone, PartialEq, Eq)]
pub struct Invocation {
    pub program: String,
    pub args: Vec<String>,
}

/// The mathematical content of an [`Invocation`].
pub struct InvocationView {
    pub program: Seq<char>,
    pub args: Seq<Seq<char>>,
}

impl View for Invocation {
    type V = InvocationView;

    open spec fn view(&self) -> InvocationView {
        InvocationView { program: self.program@, args: views(self.args@) }
    }
}

/// How a process ended: whether the system counts it as a success, and its
/// exit code where it has one.
#[derive(Debug, Clone, Copy, PartialEq, Eq, Structural)]
pub struct ExitStatus {
    pub success: bool,
    pub code: Option<i32>,
}

/// What a finished process left behind: its exit status and the text it wrote
/// to its two output streams.
#[derive(Debug, Clone, PartialEq, Eq)]
pub struct ProcessOutput {
    pub status: ExitStatus,
    pub stdout: String,
    pub stderr: String,
}

/// The view of a result: the view of its value, or of its error text.
pub open spec fn result_view<T: View>(r: Result<T, String>) -> Result<T::V, Seq<char>> {
    match r {
        Ok(v) => Ok(v@),
        Err(e) => Err(e@),
    }
}

/// Whether an executable result says exactly what `expected` says, values
/// and error texts taken by their views.
pub open spec fn agrees<T: View>(r: Result<T, String>, expected: Result<T::V, Seq<char>>) -> bool {
    result_view(r) == expected
}

/// The view of an optional string.
pub open spec fn opt_view(o: Option<String>) -> Option<Seq<char>> {
    match o {
        Some(s) => Some(s@),
        None => None,
    }
}

/// An exit code as diagnostics show it: `Some(3)`, `Some(-1)`, or `None`
/// where the process ended without one.
pub open spec fn code_text(code: Option<i32>) -> Seq<char> {
    match code {
        Some(c) => "Some("@ + signed_decimal(c as int) + ")"@,
        None => "None"@,
    }
}

/// Writes an exit code the way diagnostics show it.
pub fn describe_code(code: Option<i32>) -> (s: String)
    ensures
        s@ == code_text(code),
{
    match code {
        Some(c) => concat3("Some(", signed_decimal_string(c).as_str(), ")"),
        None => String::from_str("None"),
    }
}

/// A command line for a tool that may be missing: the call where `program`
/// is known, the given complaint where it is not.
pub open spec fn call_of(
    program: Option<Seq<char>>,
    missing: Seq<char>,
    args: Seq<Seq<char>>,
) -> Result<InvocationView, Seq<char>> {
    match program {
        Some(p) => Ok(InvocationView { program: p, args }),
        None => Err(missing),
    }
}

} // verus!
