//! The input of the read tool with its defaults filled in.

use vstd::prelude::*;

use crate::file_requests::FileCall;

verus! {

/// The input of the tool that reads a file.
#[derive(Debug, PartialEq, Eq)]
pub struct ReadFileInput {
    pub path: String,
    pub offset: usize,
    pub limit: usize,
}

/// The line that a file is read from where none is asked for.
pub fn default_offset() -> (r: usize)
    ensures
        r == 1,
{
    1
}

/// How many lines of a file are read where no number is asked for.
pub fn default_limit() -> (r: usize)
    ensures
        r == 500,
{
    500
}

/// The input with the defaults in place of what is missing.
pub open spec fn filled_in(path: String, offset: Option<usize>, limit: Option<usize>) -> ReadFileInput {
    ReadFileInput {
        path,
        offset: match offset {
            Some(offset) => offset,
            None => 1,
        },
        limit: match limit {
            Some(limit) => limit,
            None => 500,
        },
    }
}

/// The call that reads a file.
pub open spec fn read_call(input: ReadFileInput) -> FileCall {
    FileCall::Read { path: input.path, offset: input.offset, limit: input.limit }
}

impl ReadFileInput {
    /// The input with the defaults in place of what is missing.
    pub fn with_defaults(path: String, offset: Option<usize>, limit: Option<usize>) -> (r:
        ReadFileInput)
        ensures
            r == filled_in(path, offset, limit),
    {
        let offset: usize = match offset {
            Some(offset) => offset,
            None => default_offset(),
        };
        let limit: usize = match limit {
            Some(limit) => limit,
            None => default_limit(),
        };
        ReadFileInput { path, offset, limit }
    }
}

/// The call that reads a file.
pub fn run_read_file(input: ReadFileInput) -> (r: FileCall)
    ensures
        r == read_call(input),
{
    FileCall::Read { path: input.path, offset: input.offset, limit: input.limit }
}

} // verus!
