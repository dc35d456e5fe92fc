//! How a failed filesystem call is reported.
//!
//! Every failure becomes one line of text: a fixed description of the call that
//! failed, a colon and a space, then the detail given by the system.

use vstd::prelude::*;
use vstd::string::StringExecFns;

verus! {

/// The filesystem calls that a command can fail in.
#[derive(Clone, Copy, Debug, PartialEq, Eq, Structural)]
pub enum Operation {
    CreateDirectory,
    CreateFile,
    WriteFile,
    ReadFile,
    ReadDirectory,
    RemoveDirectory,
    RemoveFile,
}

impl Operation {
    /// The fixed text that opens every report of a failure of this call.
    pub open spec fn description(self) -> Seq<char> {
        match self {
            Operation::CreateDirectory => "Failed to create directory"@,
            Operation::CreateFile => "Failed to create file"@,
            Operation::WriteFile => "Failed to write file"@,
            Operation::ReadFile => "Failed to read file"@,
            Operation::ReadDirectory => "Failed to read directory"@,
            Operation::RemoveDirectory => "Failed to remove directory"@,
            Operation::RemoveFile => "Failed to remove file"@,
        }
    }

    /// The description as text to print.
    pub fn describe(self) -> (text: &'static str)
        ensures
            text@ == self.description(),
    {
        match self {
            Operation::CreateDirectory => "Failed to create directory",
            Operation::CreateFile => "Failed to create file",
            Operation::WriteFile => "Failed to write file",
            Operation::ReadFile => "Failed to read file",
            Operation::ReadDirectory => "Failed to read directory",
            Operation::RemoveDirectory => "Failed to remove directory",
            Operation::RemoveFile => "Failed to remove file",
        }
    }
}

/// The report of a failure of `operation` of which the system said `detail`.
pub open spec fn failure_text(operation: Operation, detail: Seq<char>) -> Seq<char> {
    operation.description() + ": "@ + detail
}

/// Writes the report of a failure: the description of `operation`, then `": "`,
/// then `detail` unchanged.
pub fn failure_message(operation: Operation, detail: &str) -> (message: String)
    ensures
        message@ == failure_text(operation, detail@),
{
    let mut message = String::from_str(operation.describe());
    message.append(": ");
    message.append(detail);
    message
}

/// Turns the raw outcome of `operation` into what the command returns: a value
/// passes through untouched, an error detail becomes the report of the failure.
pub fn report<T>(operation: Operation, outcome: Result<T, String>) -> (reported: Result<T, String>)
    ensures
        outcome matches Ok(value) ==> reported == Ok::<T, String>(value),
        outcome matches Err(detail) ==> (reported matches Err(message) && message@ == failure_text(
            operation,
            detail@,
        )),
{
    match outcome {
        Ok(value) => Ok(value),
        Err(detail) => Err(failure_message(operation, detail.as_str())),
    }
}

} // verus!
