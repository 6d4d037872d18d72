//! Text helpers over UTF-8 strings: byte-level search, comparison,
//! case mapping and character-safe truncation.
use vstd::prelude::*;
use vstd::utf8::*;

verus! {

broadcast use vstd::utf8::encode_utf8_valid_utf8, vstd::utf8::encode_utf8_decode_utf8;

/// The UTF-8 bytes of a character sequence.
pub open spec fn utf8(s: Seq<char>) -> Seq<u8> {
    encode_utf8(s)
}

/// `needle` occurs in `hay` starting at byte `i`.
pub open spec fn occurs_at(hay: Seq<u8>, needle: Seq<u8>, i: int) -> bool {
    0 <= i && i + needle.len() <= hay.len() && hay.subrange(i, i + needle.len()) == needle
}

/// The text `hay` contains the text `needle` (as `str::contains` searches: on bytes).
pub open spec fn text_contains(hay: Seq<char>, needle: Seq<char>) -> bool {
    exists|i: int| occurs_at(utf8(hay), utf8(needle), i)
}

/// The text `s` begins with the text `prefix` (as `str::starts_with` compares: on bytes).
pub open spec fn text_starts_with(s: Seq<char>, prefix: Seq<char>) -> bool {
    occurs_at(utf8(s), utf8(prefix), 0)
}

/// Every character of the text is ASCII.
pub open spec fn is_ascii_text(s: Seq<char>) -> bool {
    forall|i: int| 0 <= i < s.len() ==> (#[trigger] s[i] as u32) < 128
}

/// An ASCII capital letter made small; any other character is kept.
pub open spec fn ascii_lower_char(c: char) -> char {
    if 65 <= (c as u32) <= 90 {
        ((c as u32) + 32) as char
    } else {
        c
    }
}

/// An ASCII small letter made capital; any other character is kept.
pub open spec fn ascii_upper_char(c: char) -> char {
    if 97 <= (c as u32) <= 122 {
        ((c as u32) - 32) as char
    } else {
        c
    }
}

/// The text with its ASCII capital letters made small.
pub open spec fn ascii_lower(s: Seq<char>) -> Seq<char> {
    s.map_values(|c: char| ascii_lower_char(c))
}

/// The text with its ASCII small letters made capital.
pub open spec fn ascii_upper(s: Seq<char>) -> Seq<char> {
    s.map_values(|c: char| ascii_upper_char(c))
}

/// On ASCII text, lowercasing twice, or lowercasing the uppercase, gives the
/// lowercase; both the lowercase and the uppercase are ASCII again.
pub proof fn lemma_ascii_case(s: Seq<char>)
    requires
        is_ascii_text(s),
    ensures
        is_ascii_text(ascii_lower(s)),
        is_ascii_text(ascii_upper(s)),
        ascii_lower(ascii_lower(s)) == ascii_lower(s),
        ascii_lower(ascii_upper(s)) == ascii_lower(s),
{
    assert forall|i: int| 0 <= i < s.len() implies {
        &&& (ascii_lower_char(s[i]) as u32) < 128
        &&& (ascii_upper_char(s[i]) as u32) < 128
        &&& ascii_lower_char(ascii_lower_char(s[i])) == ascii_lower_char(s[i])
        &&& ascii_lower_char(ascii_upper_char(s[i])) == ascii_lower_char(s[i])
    } by {
        let c = s[i];
        let v = c as u32;
        assert(v < 128);
    }
    assert(ascii_lower(ascii_lower(s)) =~= ascii_lower(s));
    assert(ascii_lower(ascii_upper(s)) =~= ascii_lower(s));
}

/// What `str::to_lowercase` returns for a text (Unicode lowercase mapping).
pub uninterp spec fn lowercase_of(s: Seq<char>) -> Seq<char>;

/// What `str::to_uppercase` returns for a text (Unicode uppercase mapping).
pub uninterp spec fn uppercase_of(s: Seq<char>) -> Seq<char>;

/// Calls `str::to_lowercase`; the result is named by `lowercase_of`, a
/// function of the text alone (the mapping is fixed by the Unicode tables).
/// On ASCII text it makes the capital letters small and keeps the rest, as
/// `str::to_ascii_lowercase` does.
#[verifier::external_body]
pub(crate) fn to_lowercase(s: &str) -> (r: String)
    ensures
        r@ == lowercase_of(s@),
        is_ascii_text(s@) ==> r@ == ascii_lower(s@),
{
    s.to_lowercase()
}

/// Calls `str::to_uppercase`; the result is named by `uppercase_of`. On ASCII
/// text it makes the small letters capital and keeps the rest, as
/// `str::to_ascii_uppercase` does.
#[verifier::external_body]
pub(crate) fn to_uppercase(s: &str) -> (r: String)
    ensures
        r@ == uppercase_of(s@),
        is_ascii_text(s@) ==> r@ == ascii_upper(s@),
{
    s.to_uppercase()
}

/// Calls `String::push`, which appends one character.
#[verifier::external_body]
pub(crate) fn push_char(s: &mut String, c: char)
    ensures
        final(s)@ == old(s)@.push(c),
{
    s.push(c)
}

/// What `String::from_utf8_lossy` makes of bytes: the text they encode, each
/// invalid sequence replaced by U+FFFD.
pub uninterp spec fn lossy_text_of(bytes: Seq<u8>) -> Seq<char>;

/// Calls `String::from_utf8_lossy` and takes the text as a `String`. Its
/// result is named by `lossy_text_of`; on valid UTF-8 it is the text the bytes
/// encode, as `str::from_utf8` gives it.
#[verifier::external_body]
pub(crate) fn lossy_text(bytes: &[u8]) -> (r: String)
    ensures
        r@ == lossy_text_of(bytes@),
        valid_utf8(bytes@) ==> r@ == decode_utf8(bytes@),
{
    String::from_utf8_lossy(bytes).into_owned()
}

/// A new `String` holding the given text.
pub fn owned(s: &str) -> (r: String)
    ensures
        r@ == s@,
{
    s.to_owned()
}

/// The concatenation of two texts.
pub fn concat2(a: &str, b: &str) -> (r: String)
    ensures
        r@ == a@ + b@,
{
    let mut r = a.to_owned();
    r.append(b);
    r
}

/// The concatenation of three texts.
pub fn concat3(a: &str, b: &str, c: &str) -> (r: String)
    ensures
        r@ == a@ + b@ + c@,
{
    let mut r = a.to_owned();
    r.append(b);
    r.append(c);
    r
}

/// Whether `needle`'s bytes occur in `hay`'s bytes at position `i`.
fn occurs_at_exec(hay: &[u8], needle: &[u8], i: usize) -> (r: bool)
    requires
        i + needle@.len() <= hay@.len(),
    ensures
        r == occurs_at(hay@, needle@, i as int),
{
    let hl = hay.len();
    let mut j: usize = 0;
    while j < needle.len()
        invariant
            hl == hay@.len(),
            j <= needle@.len(),
            i + needle@.len() <= hay@.len(),
            forall|k: int| 0 <= k < j ==> hay@[i + k] == needle@[k],
        decreases needle@.len() - j,
    {
        if hay[i + j] != needle[j] {
            assert(hay@.subrange(i as int, i + needle@.len())[j as int] != needle@[j as int]);
            return false;
        }
        j = j + 1;
    }
    assert(hay@.subrange(i as int, i + needle@.len()) =~= needle@);
    true
}

/// Whether `hay` contains `needle`, searching on bytes.
pub fn contains(hay: &str, needle: &str) -> (r: bool)
    ensures
        r == text_contains(hay@, needle@),
{
    let h = hay.as_bytes();
    let n = needle.as_bytes();
    if n.len() > h.len() {
        assert forall|i: int| !occurs_at(utf8(hay@), utf8(needle@), i) by {}
        return false;
    }
    let last = h.len() - n.len();
    let mut i: usize = 0;
    loop
        invariant
            h@ == utf8(hay@),
            n@ == utf8(needle@),
            last + n@.len() == h@.len(),
            i <= last,
            forall|k: int| 0 <= k < i ==> !occurs_at(h@, n@, k),
        ensures
            forall|k: int| 0 <= k <= last ==> !occurs_at(h@, n@, k),
        decreases last - i,
    {
        if occurs_at_exec(h, n, i) {
            return true;
        }
        if i == last {
            break;
        }
        i = i + 1;
    }
    assert forall|k: int| !occurs_at(h@, n@, k) by {
        if occurs_at(h@, n@, k) {
            assert(k <= last);
        }
    }
    false
}

/// Whether `s` begins with `prefix`, comparing bytes.
pub fn starts_with(s: &str, prefix: &str) -> (r: bool)
    ensures
        r == text_starts_with(s@, prefix@),
{
    let h = s.as_bytes();
    let n = prefix.as_bytes();
    if n.len() > h.len() {
        return false;
    }
    occurs_at_exec(h, n, 0)
}

/// Whether two texts are equal, comparing their bytes.
pub fn text_eq(a: &str, b: &str) -> (r: bool)
    ensures
        r == (a@ == b@),
{
    let x = a.as_bytes();
    let y = b.as_bytes();
    if x.len() != y.len() {
        return false;
    }
    let e = occurs_at_exec(x, y, 0);
    proof {
        assert(x@.subrange(0, y@.len() as int) =~= x@);
        if e {
            assert(utf8(a@) == utf8(b@));
            assert(decode_utf8(utf8(a@)) == a@);
            assert(decode_utf8(utf8(b@)) == b@);
        }
    }
    e
}


/// The character of a decimal digit.
pub open spec fn digit_char(d: nat) -> char {
    if d == 0 { '0' } else if d == 1 { '1' } else if d == 2 { '2' } else if d == 3 { '3' }
    else if d == 4 { '4' } else if d == 5 { '5' } else if d == 6 { '6' } else if d == 7 { '7' }
    else if d == 8 { '8' } else { '9' }
}

/// The decimal representation of a natural number, as integers are displayed.
pub open spec fn decimal(n: nat) -> Seq<char>
    decreases n,
{
    if n < 10 {
        seq![digit_char(n)]
    } else {
        decimal(n / 10).push(digit_char(n % 10))
    }
}

fn digit(d: u64) -> (c: char)
    requires
        d < 10,
    ensures
        c == digit_char(d as nat),
{
    if d == 0 { '0' } else if d == 1 { '1' } else if d == 2 { '2' } else if d == 3 { '3' }
    else if d == 4 { '4' } else if d == 5 { '5' } else if d == 6 { '6' } else if d == 7 { '7' }
    else if d == 8 { '8' } else { '9' }
}

/// The decimal text of `n`.
pub fn decimal_string(n: u64) -> (r: String)
    ensures
        r@ == decimal(n as nat),
    decreases n,
{
    if n < 10 {
        let mut s = String::new();
        push_char(&mut s, digit(n));
        assert(s@ =~= seq![digit_char(n as nat)]);
        s
    } else {
        let mut s = decimal_string(n / 10);
        push_char(&mut s, digit(n % 10));
        s
    }
}

/// The greatest character boundary of `bytes` that is at most `k` (0 if none above).
pub open spec fn boundary_at_most(bytes: Seq<u8>, k: int) -> int
    decreases k,
{
    if k <= 0 {
        0
    } else if is_char_boundary(bytes, k) {
        k
    } else {
        boundary_at_most(bytes, k - 1)
    }
}

/// `s` cut to at most `max_len` bytes at a character boundary, followed by
/// `"..."`; `s` itself when it is no longer than `max_len` bytes.
pub open spec fn truncated(s: Seq<char>, max_len: int) -> Seq<char> {
    if utf8(s).len() <= max_len {
        s
    } else {
        decode_utf8(utf8(s).subrange(0, boundary_at_most(utf8(s), max_len))) + "..."@
    }
}

proof fn lemma_boundary_at_most(bytes: Seq<u8>, k: int)
    requires
        valid_utf8(bytes),
        0 <= k <= bytes.len(),
    ensures
        0 <= boundary_at_most(bytes, k) <= k,
        is_char_boundary(bytes, boundary_at_most(bytes, k)),
    decreases k,
{
    if k > 0 && !is_char_boundary(bytes, k) {
        lemma_boundary_at_most(bytes, k - 1);
    }
}

/// Truncation keeps a prefix of the text, whole characters only, of at most
/// `max_len` bytes, and marks the cut with `"..."`; a text that fits is kept
/// whole.
pub proof fn lemma_truncated_is_prefix(s: Seq<char>, max_len: nat)
    ensures
        utf8(s).len() <= max_len ==> truncated(s, max_len as int) == s,
        utf8(s).len() > max_len ==> exists|k: int| 0 <= k <= s.len()
            && truncated(s, max_len as int) == s.subrange(0, k) + "..."@
            && utf8(s.subrange(0, k)).len() <= max_len,
{
    let b = utf8(s);
    if b.len() > max_len {
        lemma_boundary_at_most(b, max_len as int);
        let e = boundary_at_most(b, max_len as int);
        valid_utf8_split(b, e);
        decode_utf8_split(b, e);
        let head = decode_utf8(b.subrange(0, e));
        let tail = decode_utf8(b.subrange(e, b.len() as int));
        assert(s == head + tail);
        assert(head =~= s.subrange(0, head.len() as int));
        decode_utf8_encode_utf8(b.subrange(0, e));
    }
}

/// Shortens `s` to at most `max_len` bytes without splitting a character,
/// marking the cut with `"..."`.
pub fn truncate_string(s: &str, max_len: usize) -> (r: String)
    ensures
        r@ == truncated(s@, max_len as int),
{
    let bytes = s.as_bytes();
    if bytes.len() <= max_len {
        return s.to_owned();
    }
    let mut end = max_len;
    while !s.is_char_boundary(end) && end > 0
        invariant
            end <= max_len,
            boundary_at_most(utf8(s@), max_len as int) == boundary_at_most(utf8(s@), end as int),
        decreases end,
    {
        end = end - 1;
    }
    let ghost b = utf8(s@);
    assert(is_char_boundary(b, end as int));
    assert(boundary_at_most(b, end as int) == end as int);
    let (head, _) = s.split_at(end);
    assert(decode_utf8(utf8(head@)) == head@);
    let r = concat2(head, "...");
    r
}


/// The characters of a text.
pub fn text_chars(s: &str) -> (r: Vec<char>)
    ensures
        r@ == s@,
{
    let mut r: Vec<char> = Vec::new();
    for c in it: s.chars()
        invariant
            r@ == it.seq().take(it.index()),
    {
        r.push(c);
    }
    assert(r@ =~= s@);
    r
}

/// The text of the characters `cs[from..]`.
pub fn chars_to_string(cs: &Vec<char>, from: usize) -> (r: String)
    requires
        from <= cs@.len(),
    ensures
        r@ == cs@.subrange(from as int, cs@.len() as int),
{
    let mut r = String::new();
    let mut i = from;
    while i < cs.len()
        invariant
            from <= i <= cs@.len(),
            r@ == cs@.subrange(from as int, i as int),
        decreases cs@.len() - i,
    {
        push_char(&mut r, cs[i]);
        i = i + 1;
        assert(cs@.subrange(from as int, i as int) =~= cs@.subrange(from as int, i - 1).push(cs@[i - 1]));
    }
    r
}

/// `s` without its trailing `'/'` characters.
pub open spec fn trim_slashes(s: Seq<char>) -> Seq<char>
    decreases s.len(),
{
    if s.len() > 0 && s.last() == '/' {
        trim_slashes(s.drop_last())
    } else {
        s
    }
}

/// `s` without its trailing `'/'` characters, as `trim_end_matches('/')` gives.
pub fn trim_trailing_slashes(s: &str) -> (r: String)
    ensures
        r@ == trim_slashes(s@),
{
    let cs = text_chars(s);
    let mut k = cs.len();
    assert(cs@.subrange(0, k as int) =~= s@);
    while k > 0 && cs[k - 1] == '/'
        invariant
            k <= cs@.len(),
            cs@ == s@,
            trim_slashes(cs@.subrange(0, k as int)) == trim_slashes(s@),
        decreases k,
    {
        assert(cs@.subrange(0, k as int).drop_last() =~= cs@.subrange(0, k - 1));
        k = k - 1;
    }
    let mut r = String::new();
    let mut i: usize = 0;
    while i < k
        invariant
            k <= cs@.len(),
            i <= k,
            r@ == cs@.subrange(0, i as int),
        decreases k - i,
    {
        push_char(&mut r, cs[i]);
        i = i + 1;
        assert(cs@.subrange(0, i as int) =~= cs@.subrange(0, i - 1).push(cs@[i - 1]));
    }
    assert(cs@.subrange(0, 0) =~= Seq::<char>::empty());
    assert(cs@.subrange(0, cs@.len() as int) =~= cs@);
    r
}

/// The decimal representation of an integer, with `-` before a negative one.
pub open spec fn signed_decimal(n: int) -> Seq<char> {
    if n < 0 {
        "-"@ + decimal((-n) as nat)
    } else {
        decimal(n as nat)
    }
}

/// The decimal text of `n`.
pub fn signed_decimal_string(n: i64) -> (r: String)
    ensures
        r@ == signed_decimal(n as int),
{
    if n < 0 {
        let m: u64 = if n == i64::MIN { 9223372036854775808u64 } else { (-n) as u64 };
        let d = decimal_string(m);
        concat2("-", d.as_str())
    } else {
        decimal_string(n as u64)
    }
}


/// Whether a character is white space (the Unicode `White_Space` property,
/// as `char::is_whitespace` defines it).
pub open spec fn is_space(c: char) -> bool {
    let u = c as u32;
    (9 <= u <= 13) || u == 32 || u == 0x85 || u == 0xA0 || u == 0x1680 || (0x2000 <= u <= 0x200A)
        || u == 0x2028 || u == 0x2029 || u == 0x202F || u == 0x205F || u == 0x3000
}

fn is_space_exec(c: char) -> (b: bool)
    ensures
        b == is_space(c),
{
    let u = c as u32;
    (9 <= u && u <= 13) || u == 32 || u == 0x85 || u == 0xA0 || u == 0x1680 || (0x2000 <= u && u <= 0x200A)
        || u == 0x2028 || u == 0x2029 || u == 0x202F || u == 0x205F || u == 0x3000
}

/// `s` without its leading white space.
pub open spec fn trim_start_spaces(s: Seq<char>) -> Seq<char>
    decreases s.len(),
{
    if s.len() > 0 && is_space(s[0]) {
        trim_start_spaces(s.drop_first())
    } else {
        s
    }
}

/// `s` without its trailing white space.
pub open spec fn trim_end_spaces(s: Seq<char>) -> Seq<char>
    decreases s.len(),
{
    if s.len() > 0 && is_space(s.last()) {
        trim_end_spaces(s.drop_last())
    } else {
        s
    }
}

/// `s` without leading and trailing white space, as `str::trim` gives.
pub open spec fn trimmed(s: Seq<char>) -> Seq<char> {
    trim_end_spaces(trim_start_spaces(s))
}

/// `s` without leading and trailing white space.
pub fn trim(s: &str) -> (r: String)
    ensures
        r@ == trimmed(s@),
{
    let cs = text_chars(s);
    let n = cs.len();
    let mut a: usize = 0;
    assert(cs@.subrange(0, n as int) =~= s@);
    while a < n && is_space_exec(cs[a])
        invariant
            a <= n,
            n == cs@.len(),
            cs@ == s@,
            trim_start_spaces(cs@.subrange(a as int, n as int)) == trim_start_spaces(s@),
        decreases n - a,
    {
        assert(cs@.subrange(a as int, n as int).drop_first() =~= cs@.subrange(a + 1, n as int));
        a = a + 1;
    }
    let mut b: usize = n;
    assert(cs@.subrange(a as int, b as int) == trim_start_spaces(s@));
    while b > a && is_space_exec(cs[b - 1])
        invariant
            a <= b <= n,
            n == cs@.len(),
            trim_end_spaces(cs@.subrange(a as int, b as int)) == trimmed(s@),
        decreases b,
    {
        assert(cs@.subrange(a as int, b as int).drop_last() =~= cs@.subrange(a as int, b - 1));
        b = b - 1;
    }
    let mut r = String::new();
    let mut i = a;
    while i < b
        invariant
            a <= i <= b,
            b <= n,
            n == cs@.len(),
            r@ == cs@.subrange(a as int, i as int),
        decreases b - i,
    {
        push_char(&mut r, cs[i]);
        i = i + 1;
        assert(cs@.subrange(a as int, i as int) =~= cs@.subrange(a as int, i - 1).push(cs@[i - 1]));
    }
    assert(cs@.subrange(a as int, a as int) =~= Seq::<char>::empty());
    r
}

} // verus!
