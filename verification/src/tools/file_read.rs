//! The file-reading tool: which paths it may read and how much it returns.
use vstd::prelude::*;
use vstd::utf8::*;

use crate::text::{concat2, concat3, decimal, decimal_string, utf8};
use crate::tools::paths::{allowed_in, path_allowed};

verus! {

broadcast use vstd::utf8::encode_utf8_valid_utf8, vstd::utf8::encode_utf8_decode_utf8;

/// The most bytes of file content returned.
pub const MAX_CONTENT_BYTES: usize = 51200;

/// Reads files under the configured directories.
pub struct FileReadTool {
    allowed_dirs: Vec<String>,
}

/// File content cut to its first `MAX_CONTENT_BYTES` bytes, with a note of how
/// many bytes were left out, when longer.
pub open spec fn clipped_content(s: Seq<char>) -> Seq<char> {
    let n = utf8(s).len();
    if n > MAX_CONTENT_BYTES {
        decode_utf8(utf8(s).subrange(0, MAX_CONTENT_BYTES as int)) + "...[truncated "@
            + decimal((n - MAX_CONTENT_BYTES) as nat) + " bytes]"@
    } else {
        s
    }
}

impl FileReadTool {
    /// A tool that reads under `allowed_dirs`.
    pub fn new(allowed_dirs: Vec<String>) -> (t: Self)
        ensures
            t.dirs() == allowed_dirs@.map_values(|s: String| s@),
    {
        FileReadTool { allowed_dirs }
    }

    /// The configured directories.
    pub closed spec fn dirs(&self) -> Seq<Seq<char>> {
        self.allowed_dirs@.map_values(|s: String| s@)
    }

    /// The tool's name.
    pub fn name(&self) -> (r: &'static str)
        ensures
            r@ == "file_read"@,
    {
        "file_read"
    }

    /// The tool's description.
    pub fn description(&self) -> (r: &'static str)
        ensures
            r@ == "Read content from a file. Input: {\"path\": \"/path/to/file\"}"@,
    {
        "Read content from a file. Input: {\"path\": \"/path/to/file\"}"
    }

    /// Whether `path` may be read.
    pub fn is_allowed(&self, path: &str) -> (r: bool)
        ensures
            r == path_allowed(self.dirs(), path@),
    {
        allowed_in(&self.allowed_dirs, path)
    }

    /// Refuses a path that may not be read.
    pub fn check_path(&self, path: &str) -> (r: Result<(), String>)
        ensures
            r is Ok <==> path_allowed(self.dirs(), path@),
            r matches Err(msg) ==> msg@ == "Path not allowed: "@ + path@,
    {
        if self.is_allowed(path) {
            Ok(())
        } else {
            Err(concat2("Path not allowed: ", path))
        }
    }
}

/// File content as returned by the tool: at most `MAX_CONTENT_BYTES` bytes of
/// it, then a note of the bytes left out. The cut must fall on a character
/// boundary.
pub fn clip_content(content: &str) -> (r: String)
    requires
        utf8(content@).len() <= MAX_CONTENT_BYTES || is_char_boundary(utf8(content@), MAX_CONTENT_BYTES as int),
    ensures
        r@ == clipped_content(content@),
{
    let bytes = content.as_bytes();
    let n = bytes.len();
    if n > MAX_CONTENT_BYTES {
        let (head, _) = content.split_at(MAX_CONTENT_BYTES);
        assert(decode_utf8(utf8(head@)) == head@);
        let left = decimal_string((n - MAX_CONTENT_BYTES) as u64);
        let note = concat3("...[truncated ", left.as_str(), " bytes]");
        concat2(head, note.as_str())
    } else {
        content.to_owned()
    }
}

} // verus!
