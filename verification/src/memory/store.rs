//! Records of the long-term store and its pruning rule.
use vstd::prelude::*;

verus! {

/// A message as stored: its row id, session, role, text and time.
pub struct StoredMessage {
    pub id: i64,
    pub session_id: String,
    pub role: String,
    pub content: String,
    pub timestamp: i64,
}

/// A conversation session: id, name, creation and last-update times, and the
/// number of messages saved to it.
pub struct Session {
    pub id: String,
    pub name: String,
    pub created_at: i64,
    pub updated_at: i64,
    pub message_count: i64,
}

/// How many of a session's oldest messages to delete so that at most
/// `keep_count` remain, when it holds `count`.
pub open spec fn excess(count: int, keep_count: int) -> int {
    if count <= keep_count {
        0
    } else {
        count - keep_count
    }
}

/// The number of oldest messages to delete from a session holding `count`
/// messages so that `keep_count` remain; none when it holds no more.
pub fn messages_to_delete(count: i64, keep_count: usize) -> (r: usize)
    requires
        0 <= count <= usize::MAX,
    ensures
        r == excess(count as int, keep_count as int),
        count - r == if count <= keep_count { count as int } else { keep_count as int },
{
    let c = count as usize;
    if c <= keep_count {
        0
    } else {
        c - keep_count
    }
}

/// Pruning keeps the most recent messages: deleting the excess of a session
/// holding `count` messages leaves exactly `min(count, keep_count)` of them,
/// and nothing is deleted from a session that holds no more than
/// `keep_count`.
pub proof fn lemma_prune_keeps(count: int, keep_count: int)
    requires
        0 <= count,
        0 <= keep_count,
    ensures
        0 <= excess(count, keep_count) <= count,
        count - excess(count, keep_count) == if count <= keep_count { count } else { keep_count },
        count <= keep_count ==> excess(count, keep_count) == 0,
{
}

} // verus!
