//! Short-term memory: the most recent messages of a conversation, bounded in
//! number.
use std::collections::VecDeque;
use vstd::prelude::*;

use crate::clock::now_timestamp;
use crate::llm::types::{plain_message, Message, MessageView};

verus! {

/// One remembered turn: who spoke, what was said and when (seconds since the
/// Unix epoch).
pub struct ConversationMessage {
    pub role: String,
    pub content: String,
    pub timestamp: i64,
}

/// The mathematical value of a [`ConversationMessage`].
pub struct ConversationMessageView {
    pub role: Seq<char>,
    pub content: Seq<char>,
    pub timestamp: i64,
}

impl View for ConversationMessage {
    type V = ConversationMessageView;

    open spec fn view(&self) -> ConversationMessageView {
        ConversationMessageView { role: self.role@, content: self.content@, timestamp: self.timestamp }
    }
}

/// The last `n` elements of `s` (all of `s` when it is shorter).
pub open spec fn keep_last<A>(s: Seq<A>, n: nat) -> Seq<A> {
    if s.len() <= n {
        s
    } else {
        s.skip(s.len() - n)
    }
}

/// The chat message that a remembered turn is replayed as.
pub open spec fn replayed(m: ConversationMessageView) -> MessageView {
    plain_message(m.role, m.content)
}

/// The most recent messages of a conversation, at most `max_messages` of them,
/// oldest first.
pub struct ConversationHistory {
    messages: VecDeque<ConversationMessage>,
    max_messages: usize,
}

impl ConversationHistory {
    #[verifier::type_invariant]
    spec fn bounded(self) -> bool {
        self.messages@.len() <= self.max_messages
    }

    /// The remembered turns, oldest first.
    pub closed spec fn entries(&self) -> Seq<ConversationMessageView> {
        self.messages@.map_values(|m: ConversationMessage| m@)
    }

    /// The greatest number of turns kept.
    pub closed spec fn capacity(&self) -> nat {
        self.max_messages as nat
    }

    /// An empty history that keeps at most `max_messages` turns.
    pub fn new(max_messages: usize) -> (h: Self)
        ensures
            h.entries() == Seq::<ConversationMessageView>::empty(),
            h.capacity() == max_messages,
    {
        let h = ConversationHistory { messages: VecDeque::with_capacity(max_messages), max_messages };
        assert(h.entries() =~= Seq::<ConversationMessageView>::empty());
        h
    }

    /// Remembers a turn stamped with the current time, forgetting the oldest
    /// turns beyond the capacity.
    pub fn add_message(&mut self, role: String, content: String)
        ensures
            exists|t: i64|
                final(self).entries() == keep_last(
                    old(self).entries().push(ConversationMessageView { role: role@, content: content@, timestamp: t }),
                    old(self).capacity(),
                ),
            final(self).capacity() == old(self).capacity(),
    {
        let timestamp = now_timestamp();
        self.add_message_at(role, content, timestamp);
    }

    /// Remembers a turn stamped `timestamp`, forgetting the oldest turns beyond
    /// the capacity.
    pub fn add_message_at(&mut self, role: String, content: String, timestamp: i64)
        ensures
            final(self).entries() == keep_last(
                old(self).entries().push(ConversationMessageView { role: role@, content: content@, timestamp }),
                old(self).capacity(),
            ),
            final(self).capacity() == old(self).capacity(),
    {
        proof { use_type_invariant(&*self); }
        let ghost full = self.messages@.push(ConversationMessage { role, content, timestamp });
        let mut msgs: VecDeque<ConversationMessage> = VecDeque::new();
        std::mem::swap(&mut msgs, &mut self.messages);
        msgs.push_back(ConversationMessage { role, content, timestamp });
        let max = self.max_messages;
        assert(msgs@ =~= full.skip(0));
        while msgs.len() > max
            invariant
                full.len() <= max + 1,
                msgs@.len() <= full.len(),
                msgs@ == full.skip(full.len() - msgs@.len()),
                msgs@.len() >= max || msgs@.len() == full.len(),
            decreases msgs@.len(),
        {
            let ghost before = msgs@;
            msgs.pop_front();
            assert(msgs@ =~= full.skip(full.len() - msgs@.len()));
        }
        self.messages = msgs;
        assert(self.messages@ == keep_last(full, max as nat));
        assert(self.entries() =~= keep_last(
            old(self).entries().push(ConversationMessageView { role: role@, content: content@, timestamp }),
            old(self).capacity(),
        ));
    }

    /// The remembered turns as chat messages, oldest first.
    pub fn get_messages(&self) -> (r: Vec<Message>)
        ensures
            r@.len() == self.entries().len(),
            forall|i: int| 0 <= i < r@.len() ==> #[trigger] r@[i]@ == replayed(self.entries()[i]),
    {
        let mut r: Vec<Message> = Vec::new();
        let n = self.messages.len();
        let mut i: usize = 0;
        while i < n
            invariant
                n == self.messages@.len(),
                i <= n,
                r@.len() == i,
                forall|k: int| 0 <= k < i ==> #[trigger] r@[k]@ == replayed(self.entries()[k]),
            decreases n - i,
        {
            let m = &self.messages[i];
            r.push(Message { role: m.role.clone(), content: m.content.clone(), tool_call_id: None });
            i = i + 1;
        }
        r
    }

    /// Forgets every turn.
    pub fn clear(&mut self)
        ensures
            final(self).entries() == Seq::<ConversationMessageView>::empty(),
            final(self).capacity() == old(self).capacity(),
    {
        let mut empty: VecDeque<ConversationMessage> = VecDeque::new();
        std::mem::swap(&mut empty, &mut self.messages);
        assert(self.entries() =~= Seq::<ConversationMessageView>::empty());
    }

    /// The number of remembered turns.
    pub fn len(&self) -> (n: usize)
        ensures
            n == self.entries().len(),
            n <= self.capacity(),
    {
        proof { use_type_invariant(self); }
        self.messages.len()
    }

    /// Whether no turn is remembered.
    pub fn is_empty(&self) -> (b: bool)
        ensures
            b == (self.entries().len() == 0),
    {
        self.messages.len() == 0
    }
}

/// Adding a turn keeps the most recent turns: the history grows by one until
/// it holds `n` turns and then stays at `n`, never exceeding it; the newest
/// turn is last, and the turns before it keep their order.
pub proof fn lemma_keep_last_push<A>(s: Seq<A>, x: A, n: nat)
    requires
        s.len() <= n,
    ensures
        keep_last(s.push(x), n).len() == if s.len() < n { s.len() + 1 } else { n },
        keep_last(s.push(x), n).len() <= n,
        n > 0 ==> keep_last(s.push(x), n).last() == x,
        n > 0 ==> keep_last(s.push(x), n).drop_last() == keep_last(s, (n - 1) as nat),
{
    if n > 0 {
        let t = keep_last(s.push(x), n);
        if s.len() < n {
            assert(t.drop_last() =~= s);
        } else {
            assert(t.drop_last() =~= s.skip(1));
        }
    }
}

/// What a history holding `start` holds after the turns `added` were added one
/// at a time, each addition keeping the last `n` turns.
pub open spec fn after_adding<A>(start: Seq<A>, added: Seq<A>, n: nat) -> Seq<A>
    decreases added.len(),
{
    if added.len() == 0 {
        start
    } else {
        keep_last(after_adding(start, added.drop_last(), n).push(added.last()), n)
    }
}

/// Keeping the last `n` before adding one more and keeping the last `n` again
/// is the same as keeping the last `n` once, after the addition.
proof fn lemma_keep_last_absorbs<A>(t: Seq<A>, x: A, n: nat)
    ensures
        keep_last(keep_last(t, n).push(x), n) == keep_last(t.push(x), n),
{
    let k = keep_last(t, n);
    if t.len() > n {
        assert(keep_last(k.push(x), n) =~= keep_last(t.push(x), n));
    }
}

/// A history keeps the most recent turns: from a history holding `start`
/// (within the capacity `n`), adding the turns `added` one by one leaves
/// exactly the last `n` turns of `start` followed by `added`, oldest first.
/// So a new history that was given `k` turns holds the last `min(k, n)` of
/// them in the order they came, and one of capacity 0 holds none.
pub proof fn lemma_history_keeps_most_recent<A>(start: Seq<A>, added: Seq<A>, n: nat)
    requires
        start.len() <= n,
    ensures
        after_adding(start, added, n) == keep_last(start + added, n),
        after_adding(start, added, n).len() == if start.len() + added.len() <= n {
            start.len() + added.len()
        } else {
            n
        },
        forall|i: int| 0 <= i < after_adding(start, added, n).len() ==>
            #[trigger] after_adding(start, added, n)[i] == (start + added)[start.len() + added.len()
                - after_adding(start, added, n).len() + i],
    decreases added.len(),
{
    if added.len() > 0 {
        lemma_history_keeps_most_recent(start, added.drop_last(), n);
        lemma_keep_last_absorbs(start + added.drop_last(), added.last(), n);
        assert((start + added.drop_last()).push(added.last()) =~= start + added);
    } else {
        assert(start + added =~= start);
    }
}

impl Default for ConversationHistory {
    /// A history that keeps the 10 most recent turns.
    fn default() -> (h: Self)
        ensures
            h.entries() == Seq::<ConversationMessageView>::empty(),
            h.capacity() == 10,
    {
        ConversationHistory::new(10)
    }
}

} // verus!
