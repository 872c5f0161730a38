//! What holds of the calls of the file tools.

use vstd::prelude::*;

use crate::file_ops;
use crate::file_requests::{
    self,
    EditFileInput,
    FileCall,
    GlobSearchInputValue,
    ReadFileInput,
    WriteFileInput,
};

verus! {

/// A file is read by its path, from the line and for as many lines as were asked
/// for; else from its first line on, for no more than 500.
pub proof fn law_reads_keep_what_is_asked_for(
    path: String,
    offset: Option<usize>,
    limit: Option<usize>,
)
    ensures
        ({
            let call = file_requests::read_call(ReadFileInput { path, offset, limit });
            &&& call is Read
            &&& call->Read_path == path
            &&& offset is Some ==> call->offset == offset->0
            &&& limit is Some ==> call->limit == limit->0
            &&& offset is None ==> call->offset == 1
            &&& limit is None ==> call->limit == 500
        }),
{
}

/// Both ways to ask for a file lead to the same call.
pub proof fn law_both_reads_are_one(path: String, offset: Option<usize>, limit: Option<usize>)
    ensures
        file_ops::read_call(file_ops::filled_in(path, offset, limit)) == file_requests::read_call(
            ReadFileInput { path, offset, limit },
        ),
{
}

/// A file is written by its path, with the content that was given.
pub proof fn law_writes_keep_path_and_content(path: String, content: String)
    ensures
        file_requests::write_call(WriteFileInput { path, content }) == (FileCall::Write {
            path,
            content,
        }),
{
}

/// An edit replaces the old text by the new one in the file that was named, once
/// unless all are asked for.
pub proof fn law_edits_replace_old_by_new(
    path: String,
    old_string: String,
    new_string: String,
    replace_all: Option<bool>,
)
    ensures
        ({
            let call = file_requests::edit_call(
                EditFileInput { path, old_string, new_string, replace_all },
            );
            &&& call is Edit
            &&& call->Edit_path == path
            &&& call->old_string == old_string
            &&& call->new_string == new_string
            &&& replace_all is Some ==> call->replace_all == replace_all->0
            &&& replace_all is None ==> !call->replace_all
        }),
{
}

/// Files are looked for by their pattern, below the directory that was named.
pub proof fn law_searches_keep_pattern_and_root(pattern: String, path: Option<String>)
    ensures
        file_requests::glob_call(GlobSearchInputValue { pattern, path }) == (FileCall::Glob {
            pattern,
            root: path,
        }),
{
}

} // verus!
