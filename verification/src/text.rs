use vstd::prelude::*;

verus! {

/// Whether `c` has the Unicode property White_Space.
pub open spec fn is_space(c: char) -> bool {
    let n = c as u32;
    ||| 0x09 <= n <= 0x0d
    ||| n == 0x20
    ||| n == 0x85
    ||| n == 0xa0
    ||| n == 0x1680
    ||| 0x2000 <= n <= 0x200a
    ||| n == 0x2028
    ||| n == 0x2029
    ||| n == 0x202f
    ||| n == 0x205f
    ||| n == 0x3000
}

/// Whether `pattern` stands in `text` at position `at`.
pub open spec fn occurs_at(text: Seq<char>, pattern: Seq<char>, at: int) -> bool {
    &&& 0 <= at
    &&& at + pattern.len() <= text.len()
    &&& text.subrange(at, at + pattern.len()) == pattern
}

/// The first position at or after `from`, and before the end of `text`, at
/// which `pattern` stands; the length of `text` where there is none.
pub open spec fn first_match(text: Seq<char>, pattern: Seq<char>, from: int) -> int
    decreases text.len() - from,
{
    if from < 0 || from >= text.len() {
        text.len() as int
    } else if occurs_at(text, pattern, from) {
        from
    } else {
        first_match(text, pattern, from + 1)
    }
}

/// What stands in `text` before the first occurrence of `pattern`: all of
/// `text` where `pattern` does not occur.
pub open spec fn before(text: Seq<char>, pattern: Seq<char>) -> Seq<char> {
    text.subrange(0, first_match(text, pattern, 0))
}

/// The first position at or after `from` that holds no white space.
pub open spec fn leading_end(s: Seq<char>, from: int) -> int
    decreases s.len() - from,
{
    if 0 <= from < s.len() && is_space(s[from]) {
        leading_end(s, from + 1)
    } else {
        from
    }
}

/// The end of the last stretch without trailing white space in `s[start..to]`.
pub open spec fn trailing_start(s: Seq<char>, start: int, to: int) -> int
    decreases to,
{
    if 0 <= start < to <= s.len() && is_space(s[to - 1]) {
        trailing_start(s, start, to - 1)
    } else {
        to
    }
}

/// `s` without the white space at its two ends.
pub open spec fn trimmed(s: Seq<char>) -> Seq<char> {
    let a = leading_end(s, 0);
    if a >= s.len() {
        Seq::empty()
    } else {
        s.subrange(a, trailing_start(s, a, s.len() as int))
    }
}

/// The words that open the trace which a panic message may carry.
pub open spec fn trace_marker() -> Seq<char> {
    "Stack backtrace"@
}

/// A panic message made fit to show: cut before the trace, then trimmed.
pub open spec fn cleaned(text: Seq<char>) -> Seq<char> {
    trimmed(before(text, trace_marker()))
}

/// `first_match` is the first position, from `from` on, at which the pattern
/// stands: it stands at none before it, and it stands there unless the text
/// ended first.
pub proof fn lemma_first_match(text: Seq<char>, pattern: Seq<char>, from: int)
    requires
        0 <= from <= text.len(),
    ensures
        from <= first_match(text, pattern, from) <= text.len(),
        forall|j: int|
            from <= j < first_match(text, pattern, from) ==> !occurs_at(text, pattern, j),
        first_match(text, pattern, from) < text.len() ==> occurs_at(
            text,
            pattern,
            first_match(text, pattern, from),
        ),
    decreases text.len() - from,
{
    if from < text.len() && !occurs_at(text, pattern, from) {
        lemma_first_match(text, pattern, from + 1);
    }
}

/// What `leading_end` skips is white space, and where it stops is none.
pub proof fn lemma_leading_end(s: Seq<char>, from: int)
    requires
        0 <= from <= s.len(),
    ensures
        from <= leading_end(s, from) <= s.len(),
        forall|i: int| from <= i < leading_end(s, from) ==> is_space(s[i]),
        leading_end(s, from) < s.len() ==> !is_space(s[leading_end(s, from)]),
    decreases s.len() - from,
{
    if from < s.len() && is_space(s[from]) {
        lemma_leading_end(s, from + 1);
    }
}

/// What `trailing_start` cuts off is white space, and what stands before the
/// cut is none.
pub proof fn lemma_trailing_start(s: Seq<char>, start: int, to: int)
    requires
        0 <= start <= to <= s.len(),
    ensures
        start <= trailing_start(s, start, to) <= to,
        forall|i: int| trailing_start(s, start, to) <= i < to ==> is_space(s[i]),
        start < trailing_start(s, start, to) ==> !is_space(s[trailing_start(s, start, to) - 1]),
    decreases to,
{
    if start < to && is_space(s[to - 1]) {
        lemma_trailing_start(s, start, to - 1);
    }
}

/// A cleaned message neither starts nor ends with white space, and the words
/// that open a trace do not stand in it.
pub proof fn lemma_cleaned(text: Seq<char>)
    ensures
        cleaned(text).len() > 0 ==> !is_space(cleaned(text).first()) && !is_space(
            cleaned(text).last(),
        ),
        cleaned(text).len() <= text.len(),
        forall|j: int| !occurs_at(cleaned(text), trace_marker(), j),
{
    reveal_strlit("Stack backtrace");
    let marker = trace_marker();
    assert(marker.len() == 15);
    let end = first_match(text, marker, 0);
    lemma_first_match(text, marker, 0);
    let kept = before(text, marker);
    let a = leading_end(kept, 0);
    lemma_leading_end(kept, 0);
    if a < kept.len() {
        let b = trailing_start(kept, a, kept.len() as int);
        lemma_trailing_start(kept, a, kept.len() as int);
        let short = cleaned(text);
        assert(short == kept.subrange(a, b));
        assert forall|j: int| !occurs_at(short, marker, j) by {
            if occurs_at(short, marker, j) {
                assert(short.subrange(j, j + marker.len()) =~= text.subrange(
                    a + j,
                    a + j + marker.len(),
                ));
                assert(occurs_at(text, marker, a + j));
            }
        }
    }
}

/// Whether `c` has the Unicode property White_Space.
pub fn is_white_space(c: char) -> (yes: bool)
    ensures
        yes == is_space(c),
{
    let n: u32 = c as u32;
    (0x09 <= n && n <= 0x0d) || n == 0x20 || n == 0x85 || n == 0xa0 || n == 0x1680 || (0x2000 <= n
        && n <= 0x200a) || n == 0x2028 || n == 0x2029 || n == 0x202f || n == 0x205f || n == 0x3000
}

/// The characters of `text`, one by one.
fn chars_of(text: &str) -> (chars: Vec<char>)
    ensures
        chars@ == text@,
{
    let n: usize = text.unicode_len();
    let mut chars: Vec<char> = Vec::new();
    let mut i: usize = 0;
    while i < n
        invariant
            n == text@.len(),
            i <= n,
            chars@ == text@.subrange(0, i as int),
        decreases n - i,
    {
        chars.push(text.get_char(i));
        i = i + 1;
        assert(chars@ =~= text@.subrange(0, i as int));
    }
    assert(text@.subrange(0, n as int) =~= text@);
    chars
}

/// Whether `pattern` stands in `text` at position `at`.
fn matches_at(text: &Vec<char>, pattern: &Vec<char>, at: usize) -> (yes: bool)
    requires
        at < text@.len(),
    ensures
        yes == occurs_at(text@, pattern@, at as int),
{
    if pattern.len() > text.len() - at {
        return false;
    }
    let mut j: usize = 0;
    while j < pattern.len()
        invariant
            at + pattern@.len() <= text@.len() <= usize::MAX,
            j <= pattern@.len(),
            forall|k: int| 0 <= k < j ==> text@[at + k] == pattern@[k],
        decreases pattern@.len() - j,
    {
        if text[at + j] != pattern[j] {
            assert(text@.subrange(at as int, at + pattern@.len())[j as int] == text@[at + j]);
            return false;
        }
        j = j + 1;
    }
    assert(text@.subrange(at as int, at + pattern@.len()) =~= pattern@);
    true
}

/// The position of the first occurrence of `pattern` in `text`, or the length
/// of `text`.
fn find_first(text: &Vec<char>, pattern: &Vec<char>) -> (at: usize)
    ensures
        at == first_match(text@, pattern@, 0),
        at <= text@.len(),
{
    let mut i: usize = 0;
    while i < text.len()
        invariant
            i <= text@.len(),
            first_match(text@, pattern@, 0) == first_match(text@, pattern@, i as int),
        decreases text@.len() - i,
    {
        if matches_at(text, pattern, i) {
            return i;
        }
        i = i + 1;
    }
    i
}

/// Cuts a panic message before its trace and trims what is left.
pub fn clean_panic_text(text: &str) -> (short: String)
    ensures
        short@ == cleaned(text@),
{
    let chars = chars_of(text);
    let marker = chars_of("Stack backtrace");
    let end = find_first(&chars, &marker);
    let ghost kept = before(text@, trace_marker());
    assert(kept == chars@.subrange(0, end as int));
    let mut a: usize = 0;
    while a < end && is_white_space(chars[a])
        invariant
            a <= end <= chars@.len(),
            kept == chars@.subrange(0, end as int),
            leading_end(kept, 0) == leading_end(kept, a as int),
        decreases end - a,
    {
        a = a + 1;
    }
    if a >= end {
        assert(cleaned(text@) =~= Seq::<char>::empty());
        proof {
            reveal_strlit("");
        }
        return "".to_owned();
    }
    let mut b: usize = end;
    while a < b && is_white_space(chars[b - 1])
        invariant
            a <= b <= end <= chars@.len(),
            kept == chars@.subrange(0, end as int),
            trailing_start(kept, a as int, end as int) == trailing_start(kept, a as int, b as int),
        decreases b,
    {
        b = b - 1;
    }
    assert(kept.subrange(a as int, b as int) =~= text@.subrange(a as int, b as int));
    text.substring_char(a, b).to_owned()
}

} // verus!
