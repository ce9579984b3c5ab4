use vstd::prelude::*;
use vstd::string::*;

verus! {

/// `String::push` appends one character to the end of the string.
pub assume_specification[ String::push ](s: &mut String, c: char)
    ensures
        final(s)@ == old(s)@.push(c),
;

/// `str`'s `==` holds exactly when the two texts have the same characters.
pub assume_specification[ <str as PartialEq>::eq ](a: &str, b: &str) -> (r: bool)
    ensures
        r == (a@ == b@),
;

/// An optional text as an optional sequence of characters.
pub open spec fn opt_text(s: Option<String>) -> Option<Seq<char>> {
    match s {
        Some(t) => Some(t@),
        None => None,
    }
}

/// Whether two texts are the same.
pub fn same_text(a: &str, b: &str) -> (r: bool)
    ensures
        r == (a@ == b@),
{
    a.eq(b)
}

/// Joins two pieces of text.
pub fn join_text(a: &str, b: &str) -> (r: String)
    ensures
        r@ == a@ + b@,
{
    let mut out = String::from_str(a);
    out.append(b);
    out
}

/// The characters of a text, one by one.
pub fn chars_of(s: &str) -> (r: Vec<char>)
    ensures
        r@ == s@,
{
    let mut out: Vec<char> = Vec::new();
    for c in it: s.chars()
        invariant
            it.seq() == s@,
            out@ == s@.take(it.index() as int),
    {
        out.push(c);
    }
    out
}

/// The text made of `chars[from..to]`.
pub fn text_of(chars: &Vec<char>, from: usize, to: usize) -> (r: String)
    requires
        from <= to <= chars.len(),
    ensures
        r@ == chars@.subrange(from as int, to as int),
{
    let mut out = String::new();
    let mut i = from;
    while i < to
        invariant
            from <= i <= to <= chars.len(),
            out@ == chars@.subrange(from as int, i as int),
        decreases to - i,
    {
        out.push(chars[i]);
        assert(chars@.subrange(from as int, i + 1) =~= chars@.subrange(from as int, i as int).push(
            chars@[i as int],
        ));
        i += 1;
    }
    out
}

/// `s` with every `from` replaced by `to`.
pub open spec fn replaced(s: Seq<char>, from: char, to: char) -> Seq<char> {
    Seq::new(s.len(), |i: int| if s[i] == from { to } else { s[i] })
}

/// Replaces every occurrence of `from` in `s` by `to`.
pub fn replace_char(s: &str, from: char, to: char) -> (r: String)
    ensures
        r@ == replaced(s@, from, to),
{
    let mut out = String::new();
    for c in it: s.chars()
        invariant
            it.seq() == s@,
            out@ == replaced(s@.take(it.index() as int), from, to),
    {
        if c == from {
            out.push(to);
        } else {
            out.push(c);
        }
        assert(replaced(s@.take(it.index() + 1), from, to) =~= replaced(
            s@.take(it.index() as int),
            from,
            to,
        ).push(if c == from { to } else { c }));
    }
    out
}

/// `s` without any occurrence of `c`.
pub open spec fn without(s: Seq<char>, c: char) -> Seq<char>
    decreases s.len(),
{
    if s.len() == 0 {
        s
    } else if s.last() == c {
        without(s.drop_last(), c)
    } else {
        without(s.drop_last(), c).push(s.last())
    }
}

/// Removes every occurrence of `c` from `s`.
pub fn remove_char(s: &str, c: char) -> (r: String)
    ensures
        r@ == without(s@, c),
{
    let mut out = String::new();
    for x in it: s.chars()
        invariant
            it.seq() == s@,
            out@ == without(s@.take(it.index() as int), c),
    {
        assert(s@.take(it.index() + 1).drop_last() =~= s@.take(it.index() as int));
        if x != c {
            out.push(x);
        }
    }
    assert(s@.take(s@.len() as int) =~= s@);
    out
}

/// How many times `c` occurs in `s`.
pub open spec fn occurrences(s: Seq<char>, c: char) -> nat
    decreases s.len(),
{
    if s.len() == 0 {
        0
    } else {
        occurrences(s.drop_last(), c) + if s.last() == c { 1nat } else { 0nat }
    }
}

/// Whether `c` occurs exactly `n` times in `s`.
pub fn occurs_times(s: &str, c: char, n: usize) -> (r: bool)
    ensures
        r == (occurrences(s@, c) == n),
{
    let chars = chars_of(s);
    let mut count: usize = 0;
    let mut i: usize = 0;
    while i < chars.len()
        invariant
            i <= chars.len(),
            count == occurrences(chars@.take(i as int), c),
            count <= i,
        decreases chars.len() - i,
    {
        assert(chars@.take(i + 1).drop_last() =~= chars@.take(i as int));
        if chars[i] == c {
            count += 1;
        }
        i += 1;
    }
    assert(chars@.take(chars.len() as int) =~= chars@);
    count == n
}

/// The index of the first `c` in `s`, or the length of `s` if there is none.
pub open spec fn first_index(s: Seq<char>, c: char) -> int
    decreases s.len(),
{
    if s.len() == 0 {
        0
    } else if s[0] == c {
        0
    } else {
        1 + first_index(s.drop_first(), c)
    }
}

/// `first_index` lies within the text, nothing before it is `c`, and it
/// points at a `c` unless it is the length.
pub proof fn lemma_first_index(s: Seq<char>, c: char)
    ensures
        0 <= first_index(s, c) <= s.len(),
        forall|i: int| 0 <= i < first_index(s, c) ==> s[i] != c,
        first_index(s, c) < s.len() ==> s[first_index(s, c)] == c,
    decreases s.len(),
{
    if s.len() > 0 && s[0] != c {
        lemma_first_index(s.drop_first(), c);
        assert forall|i: int| 0 <= i < first_index(s, c) implies s[i] != c by {
            if i > 0 {
                assert(s.drop_first()[i - 1] == s[i]);
            }
        }
    }
}

/// An index that nothing before it holds `c`, and that holds `c` or is the
/// length, is `first_index`.
pub proof fn lemma_first_index_is(s: Seq<char>, c: char, k: int)
    requires
        0 <= k <= s.len(),
        forall|i: int| 0 <= i < k ==> s[i] != c,
        k < s.len() ==> s[k] == c,
    ensures
        first_index(s, c) == k,
    decreases s.len(),
{
    if s.len() > 0 && k > 0 {
        lemma_first_index_is(s.drop_first(), c, k - 1);
    }
}

/// The index just after the last `c` in `s`, or 0 if there is none.
pub open spec fn after_last_index(s: Seq<char>, c: char) -> int
    decreases s.len(),
{
    if s.len() == 0 {
        0
    } else if s.last() == c {
        s.len() as int
    } else {
        after_last_index(s.drop_last(), c)
    }
}

/// The part of `s` before its first `c`; all of `s` if it has none.
pub open spec fn before_first(s: Seq<char>, c: char) -> Seq<char> {
    s.take(first_index(s, c))
}

/// The part of `s` after its first `c`, if it has one.
pub open spec fn after_first(s: Seq<char>, c: char) -> Option<Seq<char>> {
    if first_index(s, c) < s.len() {
        Some(s.skip(first_index(s, c) + 1))
    } else {
        None
    }
}

/// The part of `s` after its last `c`; all of `s` if it has none.
pub open spec fn after_last(s: Seq<char>, c: char) -> Seq<char> {
    s.skip(after_last_index(s, c))
}

/// Splits `s` at its first `c`: what stands before it, and what stands after
/// it if there is a `c` at all.
pub fn split_first(s: &str, c: char) -> (r: (String, Option<String>))
    ensures
        r.0@ == before_first(s@, c),
        match r.1 {
            Some(rest) => after_first(s@, c) == Some(rest@),
            None => after_first(s@, c) is None,
        },
{
    let chars = chars_of(s);
    let mut i: usize = 0;
    while i < chars.len() && chars[i] != c
        invariant
            i <= chars.len(),
            forall|j: int| 0 <= j < i ==> chars@[j] != c,
        decreases chars.len() - i,
    {
        i += 1;
    }
    proof {
        lemma_first_index_is(chars@, c, i as int);
    }
    let head = text_of(&chars, 0, i);
    if i < chars.len() {
        let tail = text_of(&chars, i + 1, chars.len());
        (head, Some(tail))
    } else {
        (head, None)
    }
}

/// The part of `s` after its last `c`; all of `s` if it has none.
pub fn last_segment(s: &str, c: char) -> (r: String)
    ensures
        r@ == after_last(s@, c),
{
    let chars = chars_of(s);
    let mut start: usize = 0;
    let mut i: usize = 0;
    while i < chars.len()
        invariant
            i <= chars.len(),
            start == after_last_index(chars@.take(i as int), c),
            start <= i,
        decreases chars.len() - i,
    {
        assert(chars@.take(i + 1).drop_last() =~= chars@.take(i as int));
        if chars[i] == c {
            start = i + 1;
        }
        i += 1;
    }
    assert(chars@.take(chars.len() as int) =~= chars@);
    text_of(&chars, start, chars.len())
}

/// Whether a character has the Unicode property White_Space: one of 25 code
/// points.
pub open spec fn is_whitespace(c: char) -> bool {
    let n = c as u32;
    0x09 <= n <= 0x0d || n == 0x20 || n == 0x85 || n == 0xa0 || n == 0x1680 || 0x2000 <= n
        <= 0x200a || n == 0x2028 || n == 0x2029 || n == 0x202f || n == 0x205f || n == 0x3000
}

/// `char::is_whitespace` says whether the character has the Unicode property
/// White_Space.
pub assume_specification[ char::is_whitespace ](c: char) -> (r: bool)
    ensures
        r == is_whitespace(c),
;

/// `s` without the whitespace at its start.
pub open spec fn trimmed_start(s: Seq<char>) -> Seq<char>
    decreases s.len(),
{
    if s.len() == 0 || !is_whitespace(s[0]) {
        s
    } else {
        trimmed_start(s.drop_first())
    }
}

/// `s` without the whitespace at its end.
pub open spec fn trimmed_end(s: Seq<char>) -> Seq<char>
    decreases s.len(),
{
    if s.len() == 0 || !is_whitespace(s.last()) {
        s
    } else {
        trimmed_end(s.drop_last())
    }
}

/// `s` without the whitespace at its start and at its end.
pub open spec fn trimmed(s: Seq<char>) -> Seq<char> {
    trimmed_end(trimmed_start(s))
}

/// Where whitespace fills `s` up to `k` and ends there, `trimmed_start` skips
/// exactly that much.
proof fn lemma_trimmed_start(s: Seq<char>, k: int)
    requires
        0 <= k <= s.len(),
        forall|i: int| 0 <= i < k ==> is_whitespace(s[i]),
        k < s.len() ==> !is_whitespace(s[k]),
    ensures
        trimmed_start(s) == s.skip(k),
    decreases s.len(),
{
    if k > 0 {
        lemma_trimmed_start(s.drop_first(), k - 1);
    }
}

/// Where whitespace fills `s` from `k` on and starts there, `trimmed_end`
/// keeps exactly what stands before.
proof fn lemma_trimmed_end(s: Seq<char>, k: int)
    requires
        0 <= k <= s.len(),
        forall|i: int| k <= i < s.len() ==> is_whitespace(s[i]),
        k > 0 ==> !is_whitespace(s[k - 1]),
    ensures
        trimmed_end(s) == s.take(k),
    decreases s.len(),
{
    if k < s.len() {
        lemma_trimmed_end(s.drop_last(), k);
    }
}

/// Removes the whitespace at the start and at the end of `s`.
pub fn trim(s: &str) -> (r: String)
    ensures
        r@ == trimmed(s@),
{
    let chars = chars_of(s);
    let mut start: usize = 0;
    while start < chars.len() && chars[start].is_whitespace()
        invariant
            start <= chars.len(),
            forall|i: int| 0 <= i < start ==> is_whitespace(chars@[i]),
        decreases chars.len() - start,
    {
        start += 1;
    }
    let mut end: usize = chars.len();
    while end > start && chars[end - 1].is_whitespace()
        invariant
            start <= end <= chars.len(),
            forall|i: int| end <= i < chars.len() ==> is_whitespace(chars@[i]),
        decreases end,
    {
        end -= 1;
    }
    proof {
        lemma_trimmed_start(chars@, start as int);
        lemma_trimmed_end(chars@.skip(start as int), end - start);
    }
    text_of(&chars, start, end)
}

} // verus!
