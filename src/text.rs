use vstd::prelude::*;
use vstd::string::StrSliceExecFns;

verus! {

/// The characters of a string, in order.
pub fn chars_of(s: &str) -> (r: Vec<char>)
    ensures
        r@ == s@,
{
    let mut out: Vec<char> = Vec::new();
    for c in it: s.chars()
        invariant
            out@ == it.seq().take(it.index() as int),
            it.seq() == s@,
    {
        out.push(c);
    }
    out
}

/// Relies on String::push: appends one character at the end of the string.
#[verifier::external_body]
fn push_char(s: &mut String, c: char)
    ensures
        final(s)@ == old(s)@.push(c),
{
    s.push(c);
}

/// A string holding the given characters, in order.
pub fn string_of(chars: &[char]) -> (r: String)
    ensures
        r@ == chars@,
{
    let mut out = String::new();
    let mut i: usize = 0;
    while i < chars.len()
        invariant
            i <= chars@.len(),
            out@ == chars@.take(i as int),
        decreases chars@.len() - i,
    {
        push_char(&mut out, chars[i]);
        i += 1;
        assert(out@ =~= chars@.take(i as int));
    }
    assert(chars@.take(chars@.len() as int) =~= chars@);
    out
}

/// The characters that have Unicode's White_Space property.
pub open spec fn is_white(c: char) -> bool {
    ('\u{9}' <= c && c <= '\u{d}') || c == ' ' || c == '\u{85}' || c == '\u{a0}'
        || c == '\u{1680}' || ('\u{2000}' <= c && c <= '\u{200a}') || c == '\u{2028}'
        || c == '\u{2029}' || c == '\u{202f}' || c == '\u{205f}' || c == '\u{3000}'
}

/// Whether `c` is whitespace, in the sense of Unicode's White_Space property.
pub fn is_white_char(c: char) -> (r: bool)
    ensures
        r == is_white(c),
{
    ('\u{9}' <= c && c <= '\u{d}') || c == ' ' || c == '\u{85}' || c == '\u{a0}'
        || c == '\u{1680}' || ('\u{2000}' <= c && c <= '\u{200a}') || c == '\u{2028}'
        || c == '\u{2029}' || c == '\u{202f}' || c == '\u{205f}' || c == '\u{3000}'
}

pub open spec fn is_ascii_letter(c: char) -> bool {
    ('a' <= c && c <= 'z') || ('A' <= c && c <= 'Z')
}

pub open spec fn ascii_upper(c: char) -> char {
    if 'a' <= c && c <= 'z' {
        ((c as u8) - 32) as char
    } else {
        c
    }
}

/// The words of `s` (its maximal runs of non-whitespace characters) joined by
/// single spaces: leading and trailing whitespace is dropped and every inner run
/// of whitespace becomes one space.
pub open spec fn collapse_white(s: Seq<char>) -> Seq<char>
    decreases s.len(),
{
    if s.len() == 0 {
        s
    } else {
        let before = s.drop_last();
        let p = collapse_white(before);
        let c = s.last();
        if is_white(c) {
            p
        } else if p.len() > 0 && is_white(before.last()) {
            p.push(' ').push(c)
        } else {
            p.push(c)
        }
    }
}

/// `s` with its first character upper-cased when that is an ASCII letter.
pub open spec fn capitalize_first(s: Seq<char>) -> Seq<char> {
    if s.len() > 0 && is_ascii_letter(s[0]) {
        s.update(0, ascii_upper(s[0]))
    } else {
        s
    }
}

pub open spec fn ends_sentence(s: Seq<char>) -> bool {
    s.len() > 0 && (s.last() == '.' || s.last() == '!' || s.last() == '?')
}

/// The canonical text of a raw transcript.
pub open spec fn normalized(raw: Seq<char>, finalize: bool) -> Seq<char> {
    let t = capitalize_first(collapse_white(raw));
    if t.len() == 0 {
        t
    } else if finalize && !ends_sentence(t) {
        t.push('.')
    } else {
        t
    }
}

/// Normalises a raw transcript: whitespace collapsed to single spaces between
/// words, the first character upper-cased when it is an ASCII letter, and, when
/// `finalize` is set, a full stop added unless the text already ends with `.`,
/// `!` or `?`. Empty text stays empty.
pub fn normalize_transcript(raw: &str, finalize: bool) -> (r: String)
    ensures
        r@ == normalized(raw@, finalize),
{
    let chars = chars_of(raw);
    let mut out: Vec<char> = Vec::new();
    let mut i: usize = 0;
    while i < chars.len()
        invariant
            i <= chars@.len(),
            chars@ == raw@,
            out@ == collapse_white(chars@.take(i as int)),
        decreases chars@.len() - i,
    {
        let c = chars[i];
        proof {
            let t = chars@.take(i as int + 1);
            assert(t.drop_last() =~= chars@.take(i as int));
            assert(t.last() == c);
        }
        if is_white_char(c) {
        } else if out.len() > 0 && is_white_char(chars[i - 1]) {
            out.push(' ');
            out.push(c);
        } else {
            out.push(c);
        }
        i += 1;
    }
    assert(chars@.take(chars@.len() as int) =~= chars@);
    if out.len() == 0 {
        return String::new();
    }
    let first = out[0];
    if ('a' <= first && first <= 'z') || ('A' <= first && first <= 'Z') {
        let upper = if 'a' <= first && first <= 'z' {
            ((first as u8) - 32) as char
        } else {
            first
        };
        out.set(0, upper);
    }
    if finalize {
        let last = out[out.len() - 1];
        if last != '.' && last != '!' && last != '?' {
            out.push('.');
        }
    }
    string_of(out.as_slice())
}

/// How many characters `p` and `n` share from index `i` on.
pub open spec fn shared_from(p: Seq<char>, n: Seq<char>, i: nat) -> nat
    decreases n.len() - i,
{
    if i < p.len() && i < n.len() && p[i as int] == n[i as int] {
        shared_from(p, n, i + 1)
    } else {
        i
    }
}

/// The length, in characters, of the longest common prefix of `p` and `n`.
pub open spec fn common_prefix_len(p: Seq<char>, n: Seq<char>) -> nat {
    shared_from(p, n, 0)
}

/// The part of transcript `n` that is new with respect to the text `p` emitted
/// before: `n` past its longest common prefix with `p`.
pub open spec fn delta(p: Seq<char>, n: Seq<char>) -> Seq<char> {
    n.subrange(common_prefix_len(p, n) as int, n.len() as int)
}

/// The text to emit when the transcript moves from `previous` to `next`:
/// nothing for an empty `next`, all of `next` for an empty `previous`, the new
/// suffix when `next` extends `previous`, and otherwise `next` past the longest
/// common prefix, counted in characters.
pub fn transcript_delta(previous: &str, next: &str) -> (r: String)
    ensures
        r@ == delta(previous@, next@),
        next@.len() == 0 ==> r@.len() == 0,
        previous@.len() == 0 ==> r@ == next@,
        previous@.is_prefix_of(next@) ==> r@ == next@.subrange(
            previous@.len() as int,
            next@.len() as int,
        ),
{
    let p = chars_of(previous);
    let n = chars_of(next);
    let mut k: usize = 0;
    while k < p.len() && k < n.len() && p[k] == n[k]
        invariant
            k <= p@.len(),
            k <= n@.len(),
            p@ == previous@,
            n@ == next@,
            shared_from(p@, n@, 0) == shared_from(p@, n@, k as nat),
            forall|j: int| 0 <= j < k ==> p@[j] == n@[j],
        decreases n@.len() - k,
    {
        k += 1;
    }
    proof {
        assert(n@.subrange(0, n@.len() as int) =~= n@);
        if previous@.is_prefix_of(next@) {
            lemma_prefix_shared(previous@, next@, 0);
        }
    }
    let tail = next.substring_char(k, n.len());
    tail.to_owned()
}

proof fn lemma_prefix_shared(p: Seq<char>, n: Seq<char>, i: nat)
    requires
        p.is_prefix_of(n),
        i <= p.len(),
    ensures
        shared_from(p, n, i) == p.len(),
    decreases p.len() - i,
{
    if i < p.len() {
        assert(p[i as int] == n[i as int]);
        lemma_prefix_shared(p, n, i + 1);
    }
}

/// Whitespace in `t` stands only as single spaces between words.
pub open spec fn tidy(t: Seq<char>) -> bool {
    &&& t.len() > 0 ==> !is_white(t[0])
    &&& forall|i: int|
        0 <= i < t.len() && is_white(#[trigger] t[i]) ==> t[i] == ' ' && i + 1 < t.len()
            && !is_white(t[i + 1])
}

proof fn lemma_collapse_is_tidy(s: Seq<char>)
    ensures
        tidy(collapse_white(s)),
    decreases s.len(),
{
    if s.len() > 0 {
        lemma_collapse_is_tidy(s.drop_last());
        let p = collapse_white(s.drop_last());
        let r = collapse_white(s);
        assert forall|i: int| 0 <= i < r.len() && is_white(#[trigger] r[i]) implies r[i] == ' '
            && i + 1 < r.len() && !is_white(r[i + 1]) by {
            if i < p.len() {
                assert(r[i] == p[i]);
            }
        }
    }
}

proof fn lemma_collapse_prefix_of_tidy(t: Seq<char>, i: int)
    requires
        tidy(t),
        0 <= i <= t.len(),
    ensures
        collapse_white(t.take(i)) == (if i > 0 && is_white(t[i - 1]) {
            t.take(i - 1)
        } else {
            t.take(i)
        }),
    decreases i,
{
    if i > 0 {
        lemma_collapse_prefix_of_tidy(t, i - 1);
        let s = t.take(i);
        assert(s.drop_last() =~= t.take(i - 1));
        if i >= 2 {
            assert(s.drop_last().last() == t[i - 2]);
            if is_white(t[i - 2]) {
                assert(t.take(i - 2).push(' ').push(t[i - 1]) =~= t.take(i));
            }
        }
        assert(t.take(i - 1).push(t[i - 1]) =~= t.take(i));
    }
}

proof fn lemma_collapse_keeps_tidy(t: Seq<char>)
    requires
        tidy(t),
    ensures
        collapse_white(t) == t,
{
    lemma_collapse_prefix_of_tidy(t, t.len() as int);
    assert(t.take(t.len() as int) =~= t);
}

/// Normalising a transcript that was already normalised without a final full
/// stop changes nothing.
pub proof fn lemma_normalize_idempotent(raw: Seq<char>)
    ensures
        normalized(normalized(raw, false), false) == normalized(raw, false),
{
    let c = collapse_white(raw);
    lemma_collapse_is_tidy(raw);
    let t = capitalize_first(c);
    if c.len() > 0 && is_ascii_letter(c[0]) {
        let u = ascii_upper(c[0]);
        assert(is_ascii_letter(u) && !is_white(u)) by {
            if 'a' <= c[0] && c[0] <= 'z' {
                assert(((c[0] as u8) - 32) as char == u);
            }
        }
        assert(forall|i: int| 0 < i < t.len() ==> t[i] == c[i]);
        assert(tidy(t));
        assert(ascii_upper(u) == u);
        assert(t.update(0, ascii_upper(t[0])) =~= t);
    }
    lemma_collapse_keeps_tidy(t);
}

/// The text emitted over a run of successive transcripts `ns`, starting from
/// an empty emitted text: the concatenation of the deltas.
pub open spec fn emitted(ns: Seq<Seq<char>>) -> Seq<char>
    decreases ns.len(),
{
    if ns.len() == 0 {
        Seq::empty()
    } else {
        let before = ns.drop_last();
        let previous = if before.len() == 0 {
            Seq::<char>::empty()
        } else {
            before.last()
        };
        emitted(before) + delta(previous, ns.last())
    }
}

/// Each transcript of the run extends the one before.
pub open spec fn growing(ns: Seq<Seq<char>>) -> bool {
    forall|i: int| 0 <= i < ns.len() - 1 ==> (#[trigger] ns[i]).is_prefix_of(ns[i + 1])
}

/// When each transcript extends the one before, the deltas emitted along the
/// way concatenate to the last transcript.
pub proof fn lemma_delta_round_trip(ns: Seq<Seq<char>>)
    requires
        ns.len() > 0,
        growing(ns),
    ensures
        emitted(ns) == ns.last(),
    decreases ns.len(),
{
    let before = ns.drop_last();
    let n = ns.last();
    if before.len() == 0 {
        lemma_prefix_shared(Seq::empty(), n, 0);
        assert(n.subrange(0, n.len() as int) =~= n);
        assert(Seq::<char>::empty() + n =~= n);
        assert(emitted(before) == Seq::<char>::empty());
    } else {
        assert(growing(before)) by {
            assert forall|i: int| 0 <= i < before.len() - 1 implies (#[trigger] before[i]).is_prefix_of(
                before[i + 1],
            ) by {
                assert(ns[i].is_prefix_of(ns[i + 1]));
            }
        }
        lemma_delta_round_trip(before);
        let p = before.last();
        assert(p == ns[ns.len() - 2]);
        assert(ns[ns.len() - 2].is_prefix_of(ns[ns.len() - 1]));
        lemma_prefix_shared(p, n, 0);
        assert(p + n.subrange(p.len() as int, n.len() as int) =~= n);
    }
}

} // verus!
