//! Decoding a streamed chat response: bytes arrive in chunks that may split a
//! character; each chunk's decodable text is cut into lines, and the
//! `data: ` lines carry the events, up to the `[DONE]` marker.
use vstd::prelude::*;
use vstd::utf8::*;

use crate::text::chars_to_string;

verus! {

broadcast use vstd::string::group_string_axioms;

/// `n` is the length of the longest prefix of `b` that is valid UTF-8.
pub open spec fn is_longest_valid_prefix(b: Seq<u8>, n: int) -> bool {
    &&& 0 <= n <= b.len()
    &&& valid_utf8(b.subrange(0, n))
    &&& forall|m: int| n < m <= b.len() ==> !valid_utf8(#[trigger] b.subrange(0, m))
}

/// The length of the longest prefix of `b` that is valid UTF-8.
pub open spec fn valid_prefix_len(b: Seq<u8>) -> int {
    choose|n: int| is_longest_valid_prefix(b, n)
}

proof fn lemma_longest_unique(b: Seq<u8>, n1: int, n2: int)
    requires
        is_longest_valid_prefix(b, n1),
        is_longest_valid_prefix(b, n2),
    ensures
        n1 == n2,
{
    if n1 < n2 {
        assert(!valid_utf8(b.subrange(0, n2)));
    } else if n2 < n1 {
        assert(!valid_utf8(b.subrange(0, n1)));
    }
}

proof fn lemma_valid_prefix_len(b: Seq<u8>, n: int)
    requires
        is_longest_valid_prefix(b, n),
    ensures
        valid_prefix_len(b) == n,
{
    lemma_longest_unique(b, valid_prefix_len(b), n);
}

/// Calls `std::str::from_utf8`: the text of `bytes` when they are valid
/// UTF-8; otherwise the failure's `valid_up_to`, the longest prefix that is
/// valid.
#[verifier::external_body]
fn decode_bytes(bytes: &[u8]) -> (r: Result<String, usize>)
    ensures
        match r {
            Ok(s) => valid_utf8(bytes@) && s@ == decode_utf8(bytes@),
            Err(n) => !valid_utf8(bytes@) && is_longest_valid_prefix(bytes@, n as int),
        },
{
    match std::str::from_utf8(bytes) {
        Ok(s) => Ok(s.to_string()),
        Err(e) => Err(e.valid_up_to()),
    }
}

/// One decoding step on the held bytes `b`: all of them when they are valid,
/// else their longest valid prefix, keeping the rest; nothing when no prefix
/// is valid.
pub open spec fn decode_step(b: Seq<u8>) -> (Option<Seq<char>>, Seq<u8>) {
    if valid_utf8(b) {
        (Some(decode_utf8(b)), Seq::empty())
    } else {
        let n = valid_prefix_len(b);
        if n == 0 {
            (None, b)
        } else {
            (Some(decode_utf8(b.subrange(0, n))), b.subrange(n, b.len() as int))
        }
    }
}

/// The view of an optional text.
pub open spec fn opt_chars(o: Option<String>) -> Option<Seq<char>> {
    match o {
        Some(s) => Some(s@),
        None => None,
    }
}

/// Turns the chunks of a streamed response into text, holding back the bytes
/// of a character split between chunks.
pub struct StreamDecoder {
    buffer: Vec<u8>,
}

impl StreamDecoder {
    /// The bytes received but not yet turned into text.
    pub closed spec fn pending(&self) -> Seq<u8> {
        self.buffer@
    }

    /// A decoder holding no bytes.
    pub fn new() -> (d: Self)
        ensures
            d.pending() == Seq::<u8>::empty(),
    {
        StreamDecoder { buffer: Vec::new() }
    }

    /// Adds a chunk and returns the text that can now be decoded, if any.
    pub fn feed(&mut self, chunk: &[u8]) -> (r: Option<String>)
        ensures
            (opt_chars(r), final(self).pending()) == decode_step(old(self).pending() + chunk@),
    {
        let ghost b = self.buffer@ + chunk@;
        let mut i: usize = 0;
        while i < chunk.len()
            invariant
                i <= chunk@.len(),
                self.buffer@ == old(self).buffer@ + chunk@.subrange(0, i as int),
            decreases chunk@.len() - i,
        {
            self.buffer.push(chunk[i]);
            i = i + 1;
            assert(chunk@.subrange(0, i as int) == chunk@.subrange(0, i - 1).push(chunk@[i - 1]));
        }
        assert(chunk@.subrange(0, chunk@.len() as int) =~= chunk@);
        assert(self.buffer@ == b);
        match decode_bytes(self.buffer.as_slice()) {
            Ok(s) => {
                self.buffer.clear();
                Some(s)
            },
            Err(n) => {
                proof { lemma_valid_prefix_len(b, n as int); }
                if n == 0 {
                    None
                } else {
                    let rest = self.buffer.split_off(n);
                    let text = match decode_bytes(self.buffer.as_slice()) {
                        Ok(s) => s,
                        Err(_) => {
                            assert(false);
                            String::new()
                        },
                    };
                    self.buffer = rest;
                    Some(text)
                }
            },
        }
    }
}

/// A decoding step loses and repeats no byte: the text's UTF-8 bytes followed
/// by the bytes held back are exactly the bytes held before plus the chunk.
pub proof fn lemma_decode_step_conserves(b: Seq<u8>)
    ensures
        match decode_step(b).0 {
            Some(t) => encode_utf8(t) + decode_step(b).1 == b,
            None => decode_step(b).1 == b,
        },
{
    if valid_utf8(b) {
        decode_utf8_encode_utf8(b);
        assert(b + Seq::<u8>::empty() =~= b);
    } else {
        let n = valid_prefix_len(b);
        if n != 0 {
            assert(is_longest_valid_prefix(b, n)) by {
                lemma_exists_longest(b, b.len() as int);
            }
            decode_utf8_encode_utf8(b.subrange(0, n));
            assert(b.subrange(0, n) + b.subrange(n, b.len() as int) =~= b);
        }
    }
}

/// Some prefix length is the longest valid one.
proof fn lemma_exists_longest(b: Seq<u8>, k: int)
    requires
        0 <= k <= b.len(),
        forall|m: int| k < m <= b.len() ==> !valid_utf8(#[trigger] b.subrange(0, m)),
    ensures
        exists|n: int| is_longest_valid_prefix(b, n),
    decreases k,
{
    if valid_utf8(b.subrange(0, k)) {
        assert(is_longest_valid_prefix(b, k));
    } else {
        assert(k > 0) by {
            assert(b.subrange(0, 0) =~= Seq::<u8>::empty());
        }
        lemma_exists_longest(b, k - 1);
    }
}

/// The decoder never holds back text it could decode: after a step, no
/// non-empty prefix of the held bytes is valid UTF-8.
pub proof fn lemma_decode_step_holds_no_text(b: Seq<u8>)
    ensures
        forall|k: int| 0 < k <= decode_step(b).1.len() ==> !valid_utf8(#[trigger] decode_step(b).1.subrange(0, k)),
{
    if !valid_utf8(b) {
        lemma_exists_longest(b, b.len() as int);
        let n = valid_prefix_len(b);
        let rest = decode_step(b).1;
        assert forall|k: int| 0 < k <= rest.len() implies !valid_utf8(#[trigger] rest.subrange(0, k)) by {
            if valid_utf8(rest.subrange(0, k)) {
                if n == 0 {
                    assert(b.subrange(0, k) =~= rest.subrange(0, k));
                } else {
                    assert(b.subrange(0, n + k) =~= b.subrange(0, n) + rest.subrange(0, k));
                    valid_utf8_concat(b.subrange(0, n), rest.subrange(0, k));
                }
            }
        }
    }
}

/// `l` without one trailing carriage return.
pub open spec fn strip_cr(l: Seq<char>) -> Seq<char> {
    if l.len() > 0 && l.last() == '\r' {
        l.drop_last()
    } else {
        l
    }
}

/// The lines of `rest`, after the complete lines `done` and the started line
/// `cur`: lines end at `\n` (an `\r` before it is dropped), and a last line
/// without `\n` counts only when not empty.
pub open spec fn lines_after(done: Seq<Seq<char>>, cur: Seq<char>, rest: Seq<char>) -> Seq<Seq<char>>
    decreases rest.len(),
{
    if rest.len() == 0 {
        if cur.len() == 0 {
            done
        } else {
            done.push(cur)
        }
    } else if rest[0] == '\n' {
        lines_after(done.push(strip_cr(cur)), Seq::empty(), rest.drop_first())
    } else {
        lines_after(done, cur.push(rest[0]), rest.drop_first())
    }
}

/// The lines of a text, as `str::lines` splits them.
pub open spec fn text_lines(s: Seq<char>) -> Seq<Seq<char>> {
    lines_after(Seq::empty(), Seq::empty(), s)
}

/// The payload of an event line: what follows `"data: "`.
pub open spec fn data_payload(l: Seq<char>) -> Option<Seq<char>> {
    if l.len() >= 6 && l.subrange(0, 6) == "data: "@ {
        Some(l.subrange(6, l.len() as int))
    } else {
        None
    }
}

/// The event payloads of a run of lines, in order, stopping at the `[DONE]`
/// marker; the flag tells whether the marker was reached.
pub open spec fn events_of(lines: Seq<Seq<char>>) -> (Seq<Seq<char>>, bool)
    decreases lines.len(),
{
    if lines.len() == 0 {
        (Seq::empty(), false)
    } else {
        match data_payload(lines[0]) {
            Some(d) => if d == "[DONE]"@ {
                (Seq::empty(), true)
            } else {
                let rest = events_of(lines.drop_first());
                (seq![d] + rest.0, rest.1)
            },
            None => events_of(lines.drop_first()),
        }
    }
}

/// The lines of `text`, split as `str::lines` splits.
pub fn split_lines(text: &str) -> (r: Vec<Vec<char>>)
    ensures
        r@.map_values(|l: Vec<char>| l@) == text_lines(text@),
{
    let mut done: Vec<Vec<char>> = Vec::new();
    let mut cur: Vec<char> = Vec::new();
    assert(text@.subrange(0, text@.len() as int) =~= text@);
    assert(done@.map_values(|l: Vec<char>| l@) =~= Seq::<Seq<char>>::empty());
    assert(cur@ =~= Seq::<char>::empty());
    for c in it: text.chars()
        invariant
            it.seq() == text@,
            lines_after(done@.map_values(|l: Vec<char>| l@), cur@, text@.subrange(it.index(), text@.len() as int))
                == text_lines(text@),
    {
        let ghost rest = it.seq().subrange(it.index(), it.seq().len() as int);
        let ghost dv = done@.map_values(|l: Vec<char>| l@);
        assert(rest[0] == c);
        assert(rest.drop_first() =~= it.seq().subrange(it.index() + 1, it.seq().len() as int));
        if c == '\n' {
            let mut line = cur;
            if line.len() > 0 && line[line.len() - 1] == '\r' {
                line.pop();
                assert(line@ =~= strip_cr(cur@));
            }
            let ghost lv = line@;
            assert(lv == strip_cr(cur@));
            done.push(line);
            cur = Vec::new();
            assert(done@.map_values(|l: Vec<char>| l@) =~= dv.push(lv));
        } else {
            cur.push(c);
        }
    }
    if cur.len() > 0 {
        let ghost dv = done@.map_values(|l: Vec<char>| l@);
        let ghost cv = cur@;
        done.push(cur);
        assert(done@.map_values(|l: Vec<char>| l@) =~= dv.push(cv));
    }
    done
}

fn is_data_line(l: &Vec<char>) -> (b: bool)
    ensures
        b == (data_payload(l@) is Some),
{
    proof {
        reveal_strlit("data: ");
        assert("data: "@ =~= seq!['d', 'a', 't', 'a', ':', ' ']);
    }
    let b = l.len() >= 6 && l[0] == 'd' && l[1] == 'a' && l[2] == 't' && l[3] == 'a' && l[4] == ':' && l[5] == ' ';
    if b {
        assert(l@.subrange(0, 6) =~= "data: "@);
    } else if l.len() >= 6 {
        assert(l@.subrange(0, 6) != "data: "@) by {
            if l@.subrange(0, 6) == "data: "@ {
                assert(l@[0] == l@.subrange(0, 6)[0]);
                assert(l@[1] == l@.subrange(0, 6)[1]);
                assert(l@[2] == l@.subrange(0, 6)[2]);
                assert(l@[3] == l@.subrange(0, 6)[3]);
                assert(l@[4] == l@.subrange(0, 6)[4]);
                assert(l@[5] == l@.subrange(0, 6)[5]);
            }
        }
    }
    b
}

fn is_done_payload(l: &Vec<char>) -> (b: bool)
    requires
        data_payload(l@) is Some,
    ensures
        b == (data_payload(l@)->0 == "[DONE]"@),
{
    proof {
        reveal_strlit("[DONE]");
        assert("[DONE]"@ =~= seq!['[', 'D', 'O', 'N', 'E', ']']);
    }
    let ghost d = l@.subrange(6, l@.len() as int);
    let b = l.len() == 12 && l[6] == '[' && l[7] == 'D' && l[8] == 'O' && l[9] == 'N' && l[10] == 'E' && l[11] == ']';
    if b {
        assert(d =~= "[DONE]"@);
    } else {
        assert(d != "[DONE]"@) by {
            if d == "[DONE]"@ {
                assert(d.len() == 6);
                assert(d[0] == '[' && d[1] == 'D' && d[2] == 'O' && d[3] == 'N' && d[4] == 'E' && d[5] == ']');
            }
        }
    }
    b
}

/// The event payloads of `lines`, in order, up to the `[DONE]` marker, and
/// whether the marker was reached.
pub fn collect_events(lines: &Vec<Vec<char>>) -> (r: (Vec<String>, bool))
    ensures
        (r.0@.map_values(|s: String| s@), r.1) == events_of(lines@.map_values(|l: Vec<char>| l@)),
{
    let ghost lv = lines@.map_values(|l: Vec<char>| l@);
    let mut out: Vec<String> = Vec::new();
    let mut i: usize = 0;
    assert(lv.subrange(0, lv.len() as int) =~= lv);
    assert(out@.map_values(|s: String| s@) + events_of(lv).0 =~= events_of(lv).0);
    while i < lines.len()
        invariant
            i <= lines@.len(),
            lv == lines@.map_values(|l: Vec<char>| l@),
            ({
                let tail = events_of(lv.subrange(i as int, lv.len() as int));
                events_of(lv) == (out@.map_values(|s: String| s@) + tail.0, tail.1)
            }),
        decreases lines@.len() - i,
    {
        let ghost tail_seq = lv.subrange(i as int, lv.len() as int);
        assert(tail_seq.drop_first() =~= lv.subrange(i + 1, lv.len() as int));
        assert(tail_seq[0] == lines@[i as int]@);
        let l = &lines[i];
        if is_data_line(l) {
            if is_done_payload(l) {
                assert(out@.map_values(|s: String| s@) + Seq::<Seq<char>>::empty() =~= out@.map_values(|s: String| s@));
                return (out, true);
            }
            let ghost before = out@.map_values(|s: String| s@);
            let payload = chars_to_string(l, 6);
            out.push(payload);
            assert(out@.map_values(|s: String| s@) =~= before.push(l@.subrange(6, l@.len() as int)));
            proof {
                let t2 = events_of(lv.subrange(i + 1, lv.len() as int));
                assert(before + (seq![l@.subrange(6, l@.len() as int)] + t2.0)
                    =~= before.push(l@.subrange(6, l@.len() as int)) + t2.0);
            }
        }
        i = i + 1;
    }
    proof {
        assert(lv.subrange(i as int, lv.len() as int) =~= Seq::<Seq<char>>::empty());
        assert(out@.map_values(|s: String| s@) + Seq::<Seq<char>>::empty() =~= out@.map_values(|s: String| s@));
    }
    (out, false)
}

/// What one chunk of a streamed response yields: event payloads in order, and
/// whether the stream's `[DONE]` marker was reached.
pub struct StreamEvents {
    pub payloads: Vec<String>,
    pub done: bool,
}

/// The events a chunk yields given the bytes held before it: those of the
/// lines of the decodable text, if any.
pub open spec fn chunk_events(held: Seq<u8>, chunk: Seq<u8>) -> (Seq<Seq<char>>, bool) {
    match decode_step(held + chunk).0 {
        Some(t) => events_of(text_lines(t)),
        None => (Seq::empty(), false),
    }
}

impl StreamDecoder {
    /// Adds a chunk and returns the events of the text it completes.
    pub fn process_chunk(&mut self, chunk: &[u8]) -> (r: StreamEvents)
        ensures
            (r.payloads@.map_values(|s: String| s@), r.done) == chunk_events(old(self).pending(), chunk@),
            final(self).pending() == decode_step(old(self).pending() + chunk@).1,
    {
        match self.feed(chunk) {
            None => {
                let payloads: Vec<String> = Vec::new();
                assert(payloads@.map_values(|s: String| s@) =~= Seq::<Seq<char>>::empty());
                StreamEvents { payloads, done: false }
            },
            Some(text) => {
                let lines = split_lines(text.as_str());
                let (payloads, done) = collect_events(&lines);
                StreamEvents { payloads, done }
            },
        }
    }
}

} // verus!
