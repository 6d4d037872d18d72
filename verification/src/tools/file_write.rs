//! The file-writing tool: which paths it may write and how it reports a write.
use vstd::prelude::*;

use crate::text::concat2;
use crate::tools::paths::{allowed_in, path_allowed};

verus! {

/// Writes files under the configured directories.
pub struct FileWriteTool {
    allowed_dirs: Vec<String>,
}

/// Whether a write appends when the request does not say.
pub fn default_false() -> (b: bool)
    ensures
        !b,
{
    false
}

/// The word a write is reported with.
pub fn write_mode(append: bool) -> (r: &'static str)
    ensures
        append ==> r@ == "appended"@,
        !append ==> r@ == "written"@,
{
    if append { "appended" } else { "written" }
}

impl FileWriteTool {
    /// A tool that writes under `allowed_dirs`.
    pub fn new(allowed_dirs: Vec<String>) -> (t: Self)
        ensures
            t.dirs() == allowed_dirs@.map_values(|s: String| s@),
    {
        FileWriteTool { allowed_dirs }
    }

    /// The configured directories.
    pub closed spec fn dirs(&self) -> Seq<Seq<char>> {
        self.allowed_dirs@.map_values(|s: String| s@)
    }

    /// The tool's name.
    pub fn name(&self) -> (r: &'static str)
        ensures
            r@ == "file_write"@,
    {
        "file_write"
    }

    /// The tool's description.
    pub fn description(&self) -> (r: &'static str)
        ensures
            r@ == "Write content to a file. Input: {\"path\": \"/path/to/file\", \"content\": \"text\", \"append\": false}"@,
    {
        "Write content to a file. Input: {\"path\": \"/path/to/file\", \"content\": \"text\", \"append\": false}"
    }

    /// Whether `path` may be written.
    pub fn is_allowed(&self, path: &str) -> (r: bool)
        ensures
            r == path_allowed(self.dirs(), path@),
    {
        allowed_in(&self.allowed_dirs, path)
    }

    /// Refuses a path that may not be written.
    pub fn check_path(&self, path: &str) -> (r: Result<(), String>)
        ensures
            r is Ok <==> path_allowed(self.dirs(), path@),
            r matches Err(msg) ==> msg@ == "Path not allowed: "@ + path@,
    {
        if self.is_allowed(path) {
            Ok(())
        } else {
            Err(concat2("Path not allowed: ", path))
        }
    }
}

} // verus!
