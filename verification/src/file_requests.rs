//! The inputs of the file tools, and the calls that they ask for.

use vstd::prelude::*;

verus! {

/// The input of the tool that reads a file.
#[derive(Debug, PartialEq, Eq)]
pub struct ReadFileInput {
    pub path: String,
    pub offset: Option<usize>,
    pub limit: Option<usize>,
}

/// The input of the tool that writes a file.
#[derive(Debug, PartialEq, Eq)]
pub struct WriteFileInput {
    pub path: String,
    pub content: String,
}

/// The input of the tool that edits a file.
#[derive(Debug, PartialEq, Eq)]
pub struct EditFileInput {
    pub path: String,
    pub old_string: String,
    pub new_string: String,
    pub replace_all: Option<bool>,
}

/// The input of the tool that looks for files by their names.
#[derive(Debug, PartialEq, Eq)]
pub struct GlobSearchInputValue {
    pub pattern: String,
    pub path: Option<String>,
}

/// A call on the file system.
#[derive(Debug, PartialEq, Eq)]
pub enum FileCall {
    /// Reads `limit` lines, from the line with the number `offset` on.
    Read { path: String, offset: usize, limit: usize },
    Write { path: String, content: String },
    /// Replaces one text by another, everywhere or once.
    Edit { path: String, old_string: String, new_string: String, replace_all: bool },
    /// Looks for files below `root`, or below the working directory.
    Glob { pattern: String, root: Option<String> },
}

/// The call that reads a file: from its first line on, and at most five hundred
/// lines, where nothing else is asked for.
pub open spec fn read_call(input: ReadFileInput) -> FileCall {
    FileCall::Read {
        path: input.path,
        offset: match input.offset {
            Some(offset) => offset,
            None => 1,
        },
        limit: match input.limit {
            Some(limit) => limit,
            None => 500,
        },
    }
}

/// The call that writes a file.
pub open spec fn write_call(input: WriteFileInput) -> FileCall {
    FileCall::Write { path: input.path, content: input.content }
}

/// The call that edits a file.
pub open spec fn edit_call(input: EditFileInput) -> FileCall {
    FileCall::Edit {
        path: input.path,
        old_string: input.old_string,
        new_string: input.new_string,
        replace_all: input.replace_all == Some(true),
    }
}

/// The call that looks for files.
pub open spec fn glob_call(input: GlobSearchInputValue) -> FileCall {
    FileCall::Glob { pattern: input.pattern, root: input.path }
}

/// The call that reads a file: from its first line on, and at most five hundred
/// lines, where nothing else is asked for.
pub fn run_read_file(input: ReadFileInput) -> (r: FileCall)
    ensures
        r == read_call(input),
{
    let offset: usize = match input.offset {
        Some(offset) => offset,
        None => 1,
    };
    let limit: usize = match input.limit {
        Some(limit) => limit,
        None => 500,
    };
    FileCall::Read { path: input.path, offset, limit }
}

/// The call that writes a file.
pub fn run_write_file(input: WriteFileInput) -> (r: FileCall)
    ensures
        r == write_call(input),
{
    FileCall::Write { path: input.path, content: input.content }
}

/// The call that edits a file: the text is replaced once where nothing else is
/// asked for.
pub fn run_edit_file(input: EditFileInput) -> (r: FileCall)
    ensures
        r == edit_call(input),
{
    let replace_all = match input.replace_all {
        Some(replace_all) => replace_all,
        None => false,
    };
    FileCall::Edit {
        path: input.path,
        old_string: input.old_string,
        new_string: input.new_string,
        replace_all,
    }
}

/// The call that looks for files.
pub fn run_glob_search(input: GlobSearchInputValue) -> (r: FileCall)
    ensures
        r == glob_call(input),
{
    FileCall::Glob { pattern: input.pattern, root: input.path }
}

} // verus!
