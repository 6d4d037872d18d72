//! The interactive console: what a typed line asks for, and how a remembered
//! message is listed.
use vstd::prelude::*;

use crate::text::{concat2, concat3, decimal, decimal_string, text_eq, trim, trimmed, truncate_string, truncated};

verus! {

/// What a line typed at the console asks for.
pub enum ConsoleInput {
    /// Leave the console (`exit` or `quit`).
    Exit,
    /// Forget the conversation (`clear`).
    Clear,
    /// List the conversation (`history`).
    History,
    /// List the stored messages (`memory`).
    Memory,
    /// Nothing was typed.
    Empty,
    /// Send this text to the assistant.
    Prompt(String),
}

/// `input` is what the line `line` asks for, going by its trimmed text.
pub open spec fn input_meaning(line: Seq<char>, input: ConsoleInput) -> bool {
    let t = trimmed(line);
    if t == "exit"@ || t == "quit"@ {
        input is Exit
    } else if t == "clear"@ {
        input is Clear
    } else if t == "history"@ {
        input is History
    } else if t == "memory"@ {
        input is Memory
    } else if t.len() == 0 {
        input is Empty
    } else {
        input matches ConsoleInput::Prompt(p) && p@ == t
    }
}

/// What a typed line asks for: a command word, nothing, or a prompt (the line
/// without surrounding white space).
pub fn classify_input(line: &str) -> (r: ConsoleInput)
    ensures
        input_meaning(line@, r),
{
    let t = trim(line);
    let s = t.as_str();
    if text_eq(s, "exit") || text_eq(s, "quit") {
        ConsoleInput::Exit
    } else if text_eq(s, "clear") {
        ConsoleInput::Clear
    } else if text_eq(s, "history") {
        ConsoleInput::History
    } else if text_eq(s, "memory") {
        ConsoleInput::Memory
    } else if s.is_empty() {
        ConsoleInput::Empty
    } else {
        ConsoleInput::Prompt(t)
    }
}

/// The longest message text shown in a listing, in bytes.
pub const PREVIEW_BYTES: usize = 50;

/// How the message at position `index` (from 0) is listed: its number from
/// 1, its role, and its text shortened to `PREVIEW_BYTES` bytes.
pub open spec fn listing_line(index: nat, role: Seq<char>, content: Seq<char>) -> Seq<char> {
    "  ["@ + decimal(index + 1) + "] "@ + role + ": "@ + truncated(content, PREVIEW_BYTES as int)
}

/// The listing line of a message.
pub fn history_line(index: usize, role: &str, content: &str) -> (r: String)
    requires
        index < u64::MAX,
    ensures
        r@ == listing_line(index as nat, role@, content@),
{
    let num = decimal_string(index as u64 + 1);
    let preview = truncate_string(content, PREVIEW_BYTES);
    let a = concat3("  [", num.as_str(), "] ");
    let b = concat3(a.as_str(), role, ": ");
    concat2(b.as_str(), preview.as_str())
}

} // verus!
