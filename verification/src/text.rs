//! Characters of a control line: white space and the words between it.

use vstd::prelude::*;

verus! {

/// The characters that separate words: those with the Unicode property
/// `White_Space`.
pub open spec fn is_whitespace(c: char) -> bool {
    let u = c as u32;
    ||| 0x09 <= u <= 0x0d
    ||| u == 0x20
    ||| u == 0x85
    ||| u == 0xa0
    ||| u == 0x1680
    ||| 0x2000 <= u <= 0x200a
    ||| u == 0x2028
    ||| u == 0x2029
    ||| u == 0x202f
    ||| u == 0x205f
    ||| u == 0x3000
}

/// First position at or after `from` that holds no white space, or the length.
pub open spec fn word_start(s: Seq<char>, from: int) -> int
    decreases s.len() - from,
{
    if 0 <= from < s.len() && is_whitespace(s[from]) {
        word_start(s, from + 1)
    } else {
        from
    }
}

/// First position at or after `from` that holds white space, or the length.
pub open spec fn word_end(s: Seq<char>, from: int) -> int
    decreases s.len() - from,
{
    if 0 <= from < s.len() && !is_whitespace(s[from]) {
        word_end(s, from + 1)
    } else {
        from
    }
}

/// The words of `s` from position `from` on: its maximal runs of characters
/// that are no white space, in order.
pub open spec fn words_from(s: Seq<char>, from: int) -> Seq<Seq<char>>
    decreases s.len() - from,
{
    let start = word_start(s, from);
    let end = word_end(s, start);
    if 0 <= from <= start < end <= s.len() {
        seq![s.subrange(start, end)] + words_from(s, end)
    } else {
        Seq::empty()
    }
}

/// The words of `s`.
pub open spec fn words(s: Seq<char>) -> Seq<Seq<char>> {
    words_from(s, 0)
}

/// White space leads up to the start of a word, and none stands there.
pub proof fn lemma_word_start_bounds(s: Seq<char>, from: int)
    requires
        0 <= from <= s.len(),
    ensures
        from <= word_start(s, from) <= s.len(),
        word_start(s, from) < s.len() ==> !is_whitespace(s[word_start(s, from)]),
        forall|k: int| from <= k < word_start(s, from) ==> is_whitespace(#[trigger] s[k]),
    decreases s.len() - from,
{
    if from < s.len() && is_whitespace(s[from]) {
        lemma_word_start_bounds(s, from + 1);
    }
}

/// No white space leads up to the end of a word, and the word ends at
/// white space or with the line.
pub proof fn lemma_word_end_bounds(s: Seq<char>, from: int)
    requires
        0 <= from <= s.len(),
    ensures
        from <= word_end(s, from) <= s.len(),
        word_end(s, from) < s.len() ==> is_whitespace(s[word_end(s, from)]),
        forall|k: int| from <= k < word_end(s, from) ==> !is_whitespace(#[trigger] s[k]),
        from < s.len() && !is_whitespace(s[from]) ==> from < word_end(s, from),
    decreases s.len() - from,
{
    if from < s.len() && !is_whitespace(s[from]) {
        lemma_word_end_bounds(s, from + 1);
    }
}

/// Whether `w` is a run of one character or more, none of them white space.
pub open spec fn is_word(w: Seq<char>) -> bool {
    w.len() > 0 && forall|k: int| 0 <= k < w.len() ==> !is_whitespace(#[trigger] w[k])
}

/// Every word of a line is a run of one character or more, none of them
/// white space.
pub proof fn lemma_words_are_runs(s: Seq<char>, from: int)
    requires
        0 <= from <= s.len(),
    ensures
        forall|i: int|
            0 <= i < words_from(s, from).len() ==> is_word(#[trigger] words_from(s, from)[i]),
    decreases s.len() - from,
{
    let start = word_start(s, from);
    lemma_word_start_bounds(s, from);
    let end = word_end(s, start);
    lemma_word_end_bounds(s, start);
    if start < end {
        let first = s.subrange(start, end);
        assert(is_word(first)) by {
            assert forall|k: int| 0 <= k < first.len() implies !is_whitespace(
                #[trigger] first[k],
            ) by {
                assert(first[k] == s[start + k]);
            }
        }
        lemma_words_are_runs(s, end);
        assert forall|i: int| 0 <= i < words_from(s, from).len() implies is_word(
            #[trigger] words_from(s, from)[i],
        ) by {
            if i > 0 {
                assert(words_from(s, from)[i] == words_from(s, end)[i - 1]);
            }
        }
    }
}

/// Whether `c` separates words.
pub fn whitespace(c: char) -> (b: bool)
    ensures
        b == is_whitespace(c),
{
    let u: u32 = c as u32;
    (0x09 <= u && u <= 0x0d) || u == 0x20 || u == 0x85 || u == 0xa0 || u == 0x1680 || (0x2000 <= u
        && u <= 0x200a) || u == 0x2028 || u == 0x2029 || u == 0x202f || u == 0x205f || u == 0x3000
}

/// The characters of `s`, one by one.
pub fn chars_of(s: &str) -> (chars: Vec<char>)
    ensures
        chars@ == s@,
{
    let n: usize = s.unicode_len();
    let mut chars: Vec<char> = Vec::with_capacity(n);
    let mut i: usize = 0;
    while i < n
        invariant
            i <= n,
            n == s@.len(),
            chars@ == s@.subrange(0, i as int),
        decreases n - i,
    {
        chars.push(s.get_char(i));
        assert(chars@ =~= s@.subrange(0, i + 1));
        i += 1;
    }
    assert(s@.subrange(0, n as int) =~= s@);
    chars
}

/// The bounds of the first word at or after `from`, if there is one.
pub fn next_word(chars: &Vec<char>, from: usize) -> (word: Option<(usize, usize)>)
    requires
        from <= chars@.len(),
    ensures
        match word {
            Some((start, end)) => {
                &&& start == word_start(chars@, from as int)
                &&& end == word_end(chars@, start as int)
                &&& from <= start < end <= chars@.len()
                &&& words_from(chars@, from as int) == seq![
                    chars@.subrange(start as int, end as int),
                ] + words_from(chars@, end as int)
            },
            None => words_from(chars@, from as int) == Seq::<Seq<char>>::empty(),
        },
{
    let n: usize = chars.len();
    let mut start: usize = from;
    while start < n && whitespace(chars[start])
        invariant
            from <= start <= n,
            n == chars@.len(),
            word_start(chars@, from as int) == word_start(chars@, start as int),
        decreases n - start,
    {
        start += 1;
    }
    proof {
        lemma_word_start_bounds(chars@, from as int);
    }
    if start == n {
        return None;
    }
    let mut end: usize = start;
    while end < n && !whitespace(chars[end])
        invariant
            start <= end <= n,
            n == chars@.len(),
            word_end(chars@, start as int) == word_end(chars@, end as int),
        decreases n - end,
    {
        end += 1;
    }
    proof {
        lemma_word_end_bounds(chars@, start as int);
    }
    Some((start, end))
}

} // verus!
