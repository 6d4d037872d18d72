//! The shell-command tool: which commands it may run and how much output it
//! returns.
use vstd::prelude::*;
use vstd::utf8::*;

use crate::text::{concat2, concat3, lossy_text, lossy_text_of, starts_with, text_eq, text_starts_with, utf8};

verus! {

broadcast use vstd::utf8::encode_utf8_valid_utf8, vstd::utf8::encode_utf8_decode_utf8;

/// The most bytes of standard output returned.
pub const MAX_OUTPUT_BYTES: usize = 20480;

/// Runs commands whose name begins with an allowed prefix (`"*"` allows all).
pub struct ExecuteCommandTool {
    allowed_commands: Vec<String>,
    timeout_secs: u64,
}

/// A command is allowed when it begins with an allowed entry or some entry
/// is `"*"`.
pub open spec fn command_allowed(allowed: Seq<Seq<char>>, cmd: Seq<char>) -> bool {
    exists|i: int| 0 <= i < allowed.len() && (text_starts_with(cmd, allowed[i]) || allowed[i] == "*"@)
}

/// What the debug formatting of a list of texts gives (`["ls", "cat"]`).
pub uninterp spec fn debug_list_of(items: Seq<Seq<char>>) -> Seq<char>;

/// Calls the `Debug` formatting of `Vec<String>` (`format!("{:?}", ..)`): each
/// text quoted and escaped, comma-separated, in brackets. The result is named
/// by `debug_list_of`.
#[verifier::external_body]
fn debug_list(items: &Vec<String>) -> (r: String)
    ensures
        r@ == debug_list_of(items@.map_values(|s: String| s@)),
{
    format!("{:?}", items)
}

/// Standard output cut to its first `MAX_OUTPUT_BYTES` bytes and marked, when
/// longer.
pub open spec fn clipped_output(s: Seq<char>) -> Seq<char> {
    if utf8(s).len() > MAX_OUTPUT_BYTES {
        decode_utf8(utf8(s).subrange(0, MAX_OUTPUT_BYTES as int)) + "...[truncated]"@
    } else {
        s
    }
}

impl ExecuteCommandTool {
    /// A tool that runs commands beginning with one of `allowed_commands`.
    pub fn new(allowed_commands: Vec<String>, timeout_secs: u64) -> (t: Self)
        ensures
            t.allowed() == allowed_commands@.map_values(|s: String| s@),
            t.timeout() == timeout_secs,
    {
        ExecuteCommandTool { allowed_commands, timeout_secs }
    }

    /// The allowed command prefixes.
    pub closed spec fn allowed(&self) -> Seq<Seq<char>> {
        self.allowed_commands@.map_values(|s: String| s@)
    }

    /// The configured timeout in seconds.
    pub closed spec fn timeout(&self) -> u64 {
        self.timeout_secs
    }

    /// The tool's name.
    pub fn name(&self) -> (r: &'static str)
        ensures
            r@ == "execute_command"@,
    {
        "execute_command"
    }

    /// The tool's description.
    pub fn description(&self) -> (r: &'static str)
        ensures
            r@ == "Execute a shell command. Input: {\"command\": \"ls\", \"args\": [\"-la\"], \"cwd\": \"/path\"}"@,
    {
        "Execute a shell command. Input: {\"command\": \"ls\", \"args\": [\"-la\"], \"cwd\": \"/path\"}"
    }

    /// Whether `cmd` may be run.
    pub fn is_allowed(&self, cmd: &str) -> (r: bool)
        ensures
            r == command_allowed(self.allowed(), cmd@),
    {
        let n = self.allowed_commands.len();
        let mut i: usize = 0;
        while i < n
            invariant
                n == self.allowed_commands@.len(),
                i <= n,
                forall|k: int| 0 <= k < i ==> !(text_starts_with(cmd@, self.allowed()[k]) || self.allowed()[k] == "*"@),
            decreases n - i,
        {
            let allowed = &self.allowed_commands[i];
            if starts_with(cmd, allowed.as_str()) || text_eq(allowed.as_str(), "*") {
                assert(self.allowed()[i as int] == allowed@);
                return true;
            }
            assert(self.allowed()[i as int] == allowed@);
            i = i + 1;
        }
        false
    }

    /// Refuses a command that is not allowed, naming it and the allowed list.
    pub fn check_command(&self, command: &str) -> (r: Result<(), String>)
        ensures
            r is Ok <==> command_allowed(self.allowed(), command@),
            r matches Err(msg) ==> msg@ == "Command not allowed: "@ + command@ + ". Allowed: "@
                + debug_list_of(self.allowed()),
    {
        if self.is_allowed(command) {
            Ok(())
        } else {
            let list = debug_list(&self.allowed_commands);
            let head = concat3("Command not allowed: ", command, ". Allowed: ");
            Err(concat2(head.as_str(), list.as_str()))
        }
    }
}

/// An allow-list holding `"*"` allows every command.
pub proof fn lemma_wildcard_allows_all(allowed: Seq<Seq<char>>, cmd: Seq<char>, i: int)
    requires
        0 <= i < allowed.len(),
        allowed[i] == "*"@,
    ensures
        command_allowed(allowed, cmd),
{
}

/// Standard output as returned by the tool: at most `MAX_OUTPUT_BYTES` bytes
/// of it, then `"...[truncated]"` when it was longer. The cut must fall on a
/// character boundary.
pub fn clip_output(stdout: &str) -> (r: String)
    requires
        utf8(stdout@).len() <= MAX_OUTPUT_BYTES || is_char_boundary(utf8(stdout@), MAX_OUTPUT_BYTES as int),
    ensures
        r@ == clipped_output(stdout@),
{
    let bytes = stdout.as_bytes();
    if bytes.len() > MAX_OUTPUT_BYTES {
        let (head, _) = stdout.split_at(MAX_OUTPUT_BYTES);
        assert(decode_utf8(utf8(head@)) == head@);
        concat2(head, "...[truncated]")
    } else {
        stdout.to_owned()
    }
}

/// Standard output can be clipped: it fits, or the cut falls between
/// characters.
pub open spec fn clip_fits(s: Seq<char>) -> bool {
    utf8(s).len() <= MAX_OUTPUT_BYTES || is_char_boundary(utf8(s), MAX_OUTPUT_BYTES as int)
}

/// The standard output and error of a finished command as the tool returns
/// them: both decoded with invalid sequences replaced, standard output then
/// clipped. `None` when the clip would cut a character, an output the tool
/// cannot return.
pub fn command_output(stdout: &[u8], stderr: &[u8]) -> (r: Option<(String, String)>)
    ensures
        r is Some <==> clip_fits(lossy_text_of(stdout@)),
        r matches Some(p) ==> p.0@ == clipped_output(lossy_text_of(stdout@))
            && p.1@ == lossy_text_of(stderr@),
{
    let out = lossy_text(stdout);
    let err = lossy_text(stderr);
    let text = out.as_str();
    if text.as_bytes().len() > MAX_OUTPUT_BYTES && !text.is_char_boundary(MAX_OUTPUT_BYTES) {
        None
    } else {
        Some((clip_output(text), err))
    }
}

} // verus!
