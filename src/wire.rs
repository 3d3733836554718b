//! The wire format: lines of bytes, each ended by the two-byte terminator
//! CR LF. This module defines what the lines of a byte sequence are, finds
//! the first terminator in a buffer, and proves the laws that relate
//! splitting, counting and encoding.
use vstd::prelude::*;

verus! {

/// Carriage return, the first byte of the terminator.
pub const CR: u8 = 13;

/// Line feed, the second byte of the terminator.
pub const LF: u8 = 10;

/// A terminator starts at index `i` of `s`.
pub open spec fn crlf_at(s: Seq<u8>, i: int) -> bool {
    0 <= i && i + 1 < s.len() && s[i] == CR && s[i + 1] == LF
}

/// `s` holds a terminator somewhere.
pub open spec fn has_crlf(s: Seq<u8>) -> bool {
    exists|i: int| crlf_at(s, i)
}

/// The first index at or after `from` where a terminator starts.
pub open spec fn crlf_search(s: Seq<u8>, from: int) -> Option<int>
    decreases s.len() - from,
{
    if from < 0 || from + 1 >= s.len() {
        None
    } else if crlf_at(s, from) {
        Some(from)
    } else {
        crlf_search(s, from + 1)
    }
}

/// The index where the first terminator of `s` starts, if any.
pub open spec fn first_crlf(s: Seq<u8>) -> Option<int> {
    crlf_search(s, 0)
}

/// The number of terminators in `s` (they never overlap: CR differs from LF).
pub open spec fn crlf_count(s: Seq<u8>) -> nat
    decreases s.len(),
{
    if s.len() < 2 {
        0
    } else {
        (if crlf_at(s, 0) { 1nat } else { 0nat }) + crlf_count(s.subrange(1, s.len() as int))
    }
}

/// The complete lines of `s`, in order, terminators stripped: each is the
/// run of bytes between the previous terminator (or the start) and the next.
pub open spec fn lines_of(s: Seq<u8>) -> Seq<Seq<u8>>
    decreases s.len(),
{
    match first_crlf(s) {
        Some(p) => if 0 <= p && p + 2 <= s.len() {
            seq![s.subrange(0, p)] + lines_of(s.subrange(p + 2, s.len() as int))
        } else {
            Seq::empty()
        },
        None => Seq::empty(),
    }
}

/// What is left of `s` after its last terminator: an unterminated tail.
pub open spec fn rest_of(s: Seq<u8>) -> Seq<u8>
    decreases s.len(),
{
    match first_crlf(s) {
        Some(p) => if 0 <= p && p + 2 <= s.len() {
            rest_of(s.subrange(p + 2, s.len() as int))
        } else {
            s
        },
        None => s,
    }
}

/// A line as it travels on the wire: its bytes, then the terminator.
pub open spec fn encode_line(content: Seq<u8>) -> Seq<u8> {
    content + seq![CR, LF]
}

/// Lines laid end to end on the wire, each followed by its terminator.
pub open spec fn joined(lines: Seq<Seq<u8>>) -> Seq<u8>
    decreases lines.len(),
{
    if lines.len() == 0 {
        Seq::empty()
    } else {
        encode_line(lines[0]) + joined(lines.subrange(1, lines.len() as int))
    }
}

/// The search finds exactly the first terminator at or after `from`.
pub proof fn lemma_crlf_search(s: Seq<u8>, from: int)
    requires
        0 <= from,
    ensures
        match crlf_search(s, from) {
            Some(p) => from <= p && crlf_at(s, p) && forall|i: int|
                from <= i < p ==> !crlf_at(s, i),
            None => forall|i: int| from <= i ==> !crlf_at(s, i),
        },
    decreases s.len() - from,
{
    if from + 1 < s.len() && !crlf_at(s, from) {
        lemma_crlf_search(s, from + 1);
    }
}

/// `first_crlf` is the first terminator, and `None` means there is none.
pub proof fn lemma_first_crlf(s: Seq<u8>)
    ensures
        match first_crlf(s) {
            Some(p) => 0 <= p && p + 2 <= s.len() && crlf_at(s, p) && forall|i: int|
                0 <= i < p ==> !crlf_at(s, i),
            None => !has_crlf(s),
        },
{
    lemma_crlf_search(s, 0);
}

/// Dropping a prefix that holds no terminator start keeps the count.
proof fn lemma_count_skip(s: Seq<u8>, p: int)
    requires
        0 <= p <= s.len(),
        forall|i: int| 0 <= i < p ==> !crlf_at(s, i),
    ensures
        crlf_count(s) == crlf_count(s.subrange(p, s.len() as int)),
    decreases p,
{
    if p > 0 {
        let t = s.subrange(1, s.len() as int);
        assert forall|i: int| 0 <= i < p - 1 implies !crlf_at(t, i) by {
            assert(!crlf_at(s, i + 1));
        }
        lemma_count_skip(t, p - 1);
        assert(t.subrange(p - 1, t.len() as int) =~= s.subrange(p, s.len() as int));
        if s.len() < 2 {
            assert(s.subrange(p, s.len() as int).len() < 2);
            assert(t.len() < 2);
        }
    } else {
        assert(s.subrange(0, s.len() as int) =~= s);
    }
}

/// The bytes before the first terminator hold none.
proof fn lemma_prefix_no_crlf(s: Seq<u8>, p: int)
    requires
        0 <= p <= s.len(),
        forall|i: int| 0 <= i < p ==> !crlf_at(s, i),
    ensures
        !has_crlf(s.subrange(0, p)),
{
    let l = s.subrange(0, p);
    if has_crlf(l) {
        let i = choose|i: int| crlf_at(l, i);
        assert(crlf_at(s, i));
    }
}

/// The lines of a byte sequence account for it exactly: there are as many
/// lines as terminators, laying the lines back out with their terminators
/// and appending the unterminated tail gives the sequence again, and neither
/// a line nor the tail holds a terminator. So each line is the run of bytes
/// strictly between one terminator (or the start) and the next.
pub proof fn lemma_lines_of(s: Seq<u8>)
    ensures
        lines_of(s).len() == crlf_count(s),
        s == joined(lines_of(s)) + rest_of(s),
        forall|j: int| 0 <= j < lines_of(s).len() ==> !has_crlf(#[trigger] lines_of(s)[j]),
        !has_crlf(rest_of(s)),
    decreases s.len(),
{
    lemma_first_crlf(s);
    match first_crlf(s) {
        Some(p) => {
            let l = s.subrange(0, p);
            let t = s.subrange(p + 2, s.len() as int);
            lemma_lines_of(t);
            lemma_prefix_no_crlf(s, p);
            // count: skip to the terminator, count it, then skip its LF
            lemma_count_skip(s, p);
            let u = s.subrange(p, s.len() as int);
            let v = u.subrange(1, u.len() as int);
            assert(crlf_at(u, 0));
            assert(!crlf_at(v, 0));
            lemma_count_skip(v, 1);
            assert(v.subrange(1, v.len() as int) =~= t);
            // layout
            let ls = lines_of(s);
            assert(ls =~= seq![l] + lines_of(t));
            assert(ls.subrange(1, ls.len() as int) =~= lines_of(t));
            assert(s =~= encode_line(l) + t);
            assert(joined(ls) =~= encode_line(l) + joined(lines_of(t)));
            assert(s =~= joined(ls) + rest_of(s));
            assert forall|j: int| 0 <= j < ls.len() implies !has_crlf(#[trigger] ls[j]) by {
                if j > 0 {
                    assert(ls[j] == lines_of(t)[j - 1]);
                }
            }
        },
        None => {
            lemma_count_skip(s, s.len() as int);
            assert(joined(lines_of(s)) =~= Seq::<u8>::empty());
            assert(s =~= joined(lines_of(s)) + rest_of(s));
        },
    }
}

/// Encoding a line and then reading lines back recovers it, whatever follows
/// on the wire, provided the line holds no terminator of its own.
pub proof fn lemma_round_trip(content: Seq<u8>, after: Seq<u8>)
    requires
        !has_crlf(content),
    ensures
        lines_of(encode_line(content) + after) == seq![content] + lines_of(after),
        rest_of(encode_line(content) + after) == rest_of(after),
{
    let s = encode_line(content) + after;
    let n = content.len() as int;
    assert(crlf_at(s, n));
    assert forall|i: int| 0 <= i < n implies !crlf_at(s, i) by {
        if i + 1 < n {
            if crlf_at(s, i) {
                assert(crlf_at(content, i));
            }
        }
    }
    lemma_first_crlf(s);
    assert(first_crlf(s) == Some(n));
    assert(s.subrange(0, n) =~= content);
    assert(s.subrange(n + 2, s.len() as int) =~= after);
}

/// How a stream is cut into reads does not change its lines: the lines of
/// `a` followed by `b` are the lines of `a`, then those of `a`'s
/// unterminated tail followed by `b`.
pub proof fn lemma_lines_chunked(a: Seq<u8>, b: Seq<u8>)
    ensures
        lines_of(a + b) == lines_of(a) + lines_of(rest_of(a) + b),
        rest_of(a + b) == rest_of(rest_of(a) + b),
    decreases a.len(),
{
    lemma_first_crlf(a);
    match first_crlf(a) {
        Some(p) => {
            let l = a.subrange(0, p);
            let t = a.subrange(p + 2, a.len() as int);
            lemma_prefix_no_crlf(a, p);
            assert(a =~= encode_line(l) + t);
            assert(a + b =~= encode_line(l) + (t + b));
            lemma_round_trip(l, t + b);
            lemma_round_trip(l, t);
            lemma_lines_chunked(t, b);
            assert(lines_of(a + b) =~= lines_of(a) + lines_of(rest_of(a) + b));
        },
        None => {
            assert(lines_of(a) =~= Seq::<Seq<u8>>::empty());
            assert(rest_of(a) == a);
            assert(lines_of(a + b) =~= lines_of(a) + lines_of(rest_of(a) + b));
        },
    }
}

/// Bytes without a terminator give no line, however much of them there is:
/// they stay an unterminated tail.
pub proof fn lemma_no_terminator_no_line(s: Seq<u8>)
    requires
        !has_crlf(s),
    ensures
        lines_of(s).len() == 0,
        rest_of(s) == s,
{
    lemma_first_crlf(s);
}

/// Finds where the first terminator of `s` starts, scanning a two-byte
/// window over it.
pub fn find_terminator(s: &[u8]) -> (r: Option<usize>)
    ensures
        match r {
            Some(p) => first_crlf(s@) == Some(p as int) && crlf_at(s@, p as int),
            None => first_crlf(s@) is None && !has_crlf(s@),
        },
{
    proof {
        lemma_first_crlf(s@);
    }
    let n = s.len();
    let mut i: usize = 0;
    while n - i > 1
        invariant
            n == s@.len(),
            i <= n,
            forall|k: int| 0 <= k < i ==> !crlf_at(s@, k),
            match first_crlf(s@) {
                Some(p) => 0 <= p && crlf_at(s@, p) && forall|k: int|
                    0 <= k < p ==> !crlf_at(s@, k),
                None => !has_crlf(s@),
            },
        decreases n - i,
    {
        if s[i] == CR && s[i + 1] == LF {
            assert(crlf_at(s@, i as int));
            return Some(i);
        }
        i = i + 1;
    }
    assert(!has_crlf(s@)) by {
        if has_crlf(s@) {
            let k = choose|k: int| crlf_at(s@, k);
            assert(k < i);
        }
    }
    None
}

} // verus!
