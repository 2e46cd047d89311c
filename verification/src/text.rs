//! Character-level text primitives shared by every other module.
//!
//! Strings are modelled as `Seq<char>`. Searching, counting, trimming and
//! word splitting are verified here against short mathematical definitions;
//! only Unicode case folding and the Unicode white-space property are taken
//! from the standard library on trust.

use vstd::prelude::*;

verus! {

/// The lower-case form that `str::to_lowercase` gives to a text.
pub uninterp spec fn lowercase_of(text: Seq<char>) -> Seq<char>;

/// Whether `char::is_whitespace` holds of a character.
pub uninterp spec fn white_space(c: char) -> bool;

/// Trusted: `str::to_lowercase` from the standard library. The contract only
/// gives the result its name; it claims nothing about which characters change.
#[verifier::external_body]
pub(crate) fn to_lowercase(text: &str) -> (out: String)
    ensures
        out@ == lowercase_of(text@),
{
    text.to_lowercase()
}

/// Trusted: `char::is_whitespace` from the standard library. The contract only
/// gives the answer its name; it does not list the white-space characters.
#[verifier::external_body]
pub(crate) fn is_whitespace(c: char) -> (b: bool)
    ensures
        b == white_space(c),
{
    c.is_whitespace()
}

/// The characters of a string slice, in order.
pub fn chars_of(text: &str) -> (out: Vec<char>)
    ensures
        out@ == text@,
{
    let mut out: Vec<char> = Vec::new();
    for c in it: text.chars()
        invariant
            out@ == it.seq().take(it.index() as int),
            it.seq() == text@,
    {
        out.push(c);
    }
    out
}

/// Whether two string slices hold the same characters.
pub fn same_text(a: &str, b: &str) -> (same: bool)
    ensures
        same == (a@ == b@),
{
    let left = String::from_str(a);
    let right = String::from_str(b);
    left == right
}

/// `needle` stands in `hay` starting at index `at`.
pub open spec fn occurs_at(hay: Seq<char>, needle: Seq<char>, at: int) -> bool {
    &&& 0 <= at
    &&& at + needle.len() <= hay.len()
    &&& hay.subrange(at, at + needle.len()) == needle
}

/// `needle` is a contiguous part of `hay`.
pub open spec fn occurs_in(hay: Seq<char>, needle: Seq<char>) -> bool {
    exists|at: int| occurs_at(hay, needle, at)
}

/// Counts the matches of a non-empty `needle` in `hay` from index `from` on,
/// scanning left to right and resuming behind each match, so that counted
/// matches never overlap.
pub open spec fn occurrences_from(hay: Seq<char>, needle: Seq<char>, from: int) -> nat
    decreases hay.len() - from,
{
    if needle.len() == 0 || from < 0 || from + needle.len() > hay.len() {
        0
    } else if occurs_at(hay, needle, from) {
        1 + occurrences_from(hay, needle, from + needle.len())
    } else {
        occurrences_from(hay, needle, from + 1)
    }
}

/// The number of non-overlapping occurrences of `needle` in `hay`. The empty
/// needle is found once at every position, the end included.
pub open spec fn occurrences(hay: Seq<char>, needle: Seq<char>) -> nat {
    if needle.len() == 0 {
        hay.len() + 1
    } else {
        occurrences_from(hay, needle, 0)
    }
}

/// Decides `occurs_at` by comparing character by character.
pub fn matches_at(hay: &Vec<char>, needle: &Vec<char>, at: usize) -> (found: bool)
    ensures
        found == occurs_at(hay@, needle@, at as int),
{
    let n = needle.len();
    if n > hay.len() || at > hay.len() - n {
        return false;
    }
    let mut k: usize = 0;
    while k < n
        invariant
            k <= n,
            n == needle@.len(),
            at + n <= hay@.len(),
            hay@.len() <= usize::MAX,
            forall|j: int| 0 <= j < k ==> hay@[at + j] == needle@[j],
        decreases n - k,
    {
        if hay[at + k] != needle[k] {
            proof {
                let part = hay@.subrange(at as int, at + n);
                assert(part[k as int] == hay@[at + k]);
            }
            return false;
        }
        k += 1;
    }
    assert(hay@.subrange(at as int, at + n) =~= needle@);
    true
}

/// Decides `occurs_in` by trying every starting position.
pub fn contains(hay: &Vec<char>, needle: &Vec<char>) -> (found: bool)
    ensures
        found == occurs_in(hay@, needle@),
{
    let n = needle.len();
    if n > hay.len() {
        return false;
    }
    let last = hay.len() - n;
    let mut at: usize = 0;
    loop
        invariant
            at <= last,
            last + n == hay@.len(),
            n == needle@.len(),
            forall|j: int| 0 <= j < at ==> !occurs_at(hay@, needle@, j),
        decreases last - at,
    {
        if matches_at(hay, needle, at) {
            return true;
        }
        if at == last {
            return false;
        }
        at += 1;
    }
}

/// Counts non-overlapping occurrences as `occurrences` defines them. The one
/// count that no `usize` can hold, that of the empty needle in a text of
/// `usize::MAX` characters, is excluded.
pub fn count_occurrences(hay: &Vec<char>, needle: &Vec<char>) -> (count: usize)
    requires
        needle@.len() > 0 || hay@.len() < usize::MAX,
    ensures
        count == occurrences(hay@, needle@),
        needle@.len() > 0 ==> count <= hay@.len(),
{
    let n = needle.len();
    if n == 0 {
        return hay.len() + 1;
    }
    if n > hay.len() {
        return 0;
    }
    let last = hay.len() - n;
    let mut count: usize = 0;
    let mut at: usize = 0;
    while at <= last
        invariant
            n > 0,
            n == needle@.len(),
            last + n == hay@.len(),
            count <= at,
            at <= hay@.len(),
            hay@.len() <= usize::MAX,
            count + occurrences_from(hay@, needle@, at as int) == occurrences_from(
                hay@,
                needle@,
                0,
            ),
        decreases hay@.len() - at,
    {
        if matches_at(hay, needle, at) {
            count += 1;
            at += n;
        } else {
            at += 1;
        }
    }
    count
}

/// A text without its leading white space.
pub open spec fn trim_start(text: Seq<char>) -> Seq<char>
    decreases text.len(),
{
    if text.len() > 0 && white_space(text[0]) {
        trim_start(text.drop_first())
    } else {
        text
    }
}

/// A text without its trailing white space.
pub open spec fn trim_end(text: Seq<char>) -> Seq<char>
    decreases text.len(),
{
    if text.len() > 0 && white_space(text.last()) {
        trim_end(text.drop_last())
    } else {
        text
    }
}

/// A text without leading and trailing white space.
pub open spec fn trimmed(text: Seq<char>) -> Seq<char> {
    trim_end(trim_start(text))
}

/// A text is blank when trimming leaves nothing of it.
pub open spec fn is_blank(text: Seq<char>) -> bool {
    trimmed(text).len() == 0
}

/// A text is blank exactly when every character of it is white space.
pub proof fn lemma_blank_means_all_white_space(text: Seq<char>)
    ensures
        is_blank(text) <==> forall|i: int| 0 <= i < text.len() ==> white_space(#[trigger] text[i]),
    decreases text.len(),
{
    if text.len() > 0 && white_space(text[0]) {
        let rest = text.drop_first();
        lemma_blank_means_all_white_space(rest);
        if is_blank(rest) {
            assert forall|i: int| 0 <= i < text.len() implies white_space(#[trigger] text[i]) by {
                if i > 0 {
                    assert(text[i] == rest[i - 1]);
                }
            }
        } else {
            let j = choose|j: int| 0 <= j < rest.len() && !white_space(#[trigger] rest[j]);
            assert(text[j + 1] == rest[j]);
        }
    } else if text.len() > 0 {
        lemma_trim_end_keeps_first(text);
    }
}

/// Trimming the end never removes a first character that is not white space.
proof fn lemma_trim_end_keeps_first(text: Seq<char>)
    requires
        text.len() > 0,
        !white_space(text[0]),
    ensures
        trim_end(text).len() > 0,
    decreases text.len(),
{
    if white_space(text.last()) {
        assert(text.len() > 1);
        lemma_trim_end_keeps_first(text.drop_last());
    }
}

/// The part of `text` from `from` on, trimmed at the start, is the part from
/// the first index at or after `from` that holds no white space.
proof fn lemma_trim_start_step(text: Seq<char>, from: int)
    requires
        0 <= from < text.len(),
        white_space(text[from]),
    ensures
        trim_start(text.subrange(from, text.len() as int)) == trim_start(
            text.subrange(from + 1, text.len() as int),
        ),
{
    let part = text.subrange(from, text.len() as int);
    assert(part[0] == text[from]);
    assert(part.drop_first() =~= text.subrange(from + 1, text.len() as int));
}

proof fn lemma_trim_end_step(text: Seq<char>, from: int, to: int)
    requires
        0 <= from < to <= text.len(),
        white_space(text[to - 1]),
    ensures
        trim_end(text.subrange(from, to)) == trim_end(text.subrange(from, to - 1)),
{
    let part = text.subrange(from, to);
    assert(part.last() == text[to - 1]);
    assert(part.drop_last() =~= text.subrange(from, to - 1));
}

/// Removes leading and trailing white space.
pub fn trim(text: &str) -> (out: String)
    ensures
        out@ == trimmed(text@),
{
    let chars = chars_of(text);
    let len = chars.len();
    let mut from: usize = 0;
    assert(chars@.subrange(0, len as int) =~= chars@);
    while from < len && is_whitespace(chars[from])
        invariant
            from <= len,
            len == chars@.len(),
            trim_start(chars@) == trim_start(chars@.subrange(from as int, len as int)),
        decreases len - from,
    {
        proof {
            lemma_trim_start_step(chars@, from as int);
        }
        from += 1;
    }
    assert(trim_start(chars@) == chars@.subrange(from as int, len as int)) by {
        let part = chars@.subrange(from as int, len as int);
        if from < len {
            assert(part[0] == chars@[from as int]);
        }
    }
    let mut to: usize = len;
    while to > from && is_whitespace(chars[to - 1])
        invariant
            from <= to <= len,
            len == chars@.len(),
            trimmed(chars@) == trim_end(chars@.subrange(from as int, to as int)),
        decreases to,
    {
        proof {
            lemma_trim_end_step(chars@, from as int, to as int);
        }
        to -= 1;
    }
    assert(trimmed(chars@) == chars@.subrange(from as int, to as int)) by {
        let part = chars@.subrange(from as int, to as int);
        if to > from {
            assert(part.last() == chars@[to - 1]);
        }
    }
    String::from_str(text.substring_char(from, to))
}

/// The end of the word that starts at `from`: the first index at or after
/// `from` that holds white space, or the length of the text.
pub open spec fn word_end(text: Seq<char>, from: int) -> int
    decreases text.len() - from,
{
    if from < 0 || from >= text.len() || white_space(text[from]) {
        from
    } else {
        word_end(text, from + 1)
    }
}

/// The words of `text` from index `from` on: the maximal runs of characters
/// that are not white space, in order. No word is empty.
pub open spec fn words_from(text: Seq<char>, from: int) -> Seq<Seq<char>>
    decreases text.len() - from,
    via words_from_terminates
{
    if from < 0 || from >= text.len() {
        Seq::empty()
    } else if white_space(text[from]) {
        words_from(text, from + 1)
    } else {
        seq![text.subrange(from, word_end(text, from))] + words_from(
            text,
            word_end(text, from),
        )
    }
}

#[via_fn]
proof fn words_from_terminates(text: Seq<char>, from: int) {
    if 0 <= from < text.len() && !white_space(text[from]) {
        lemma_word_end_bounds(text, from);
    }
}

/// The words of a text, split at any amount of white space.
pub open spec fn words(text: Seq<char>) -> Seq<Seq<char>> {
    words_from(text, 0)
}

/// The views of a vector of character vectors.
pub open spec fn views_of(items: Seq<Vec<char>>) -> Seq<Seq<char>> {
    Seq::new(items.len(), |i: int| items[i]@)
}

/// Every word is non-empty.
pub proof fn lemma_words_are_non_empty(text: Seq<char>, from: int)
    ensures
        forall|i: int| 0 <= i < words_from(text, from).len() ==> (#[trigger] words_from(
            text,
            from,
        )[i]).len() > 0,
    decreases text.len() - from,
{
    if from < 0 || from >= text.len() {
        assert(words_from(text, from).len() == 0);
    } else if white_space(text[from]) {
        lemma_words_are_non_empty(text, from + 1);
        assert(words_from(text, from) == words_from(text, from + 1));
    } else {
        let end = word_end(text, from);
        lemma_word_end_bounds(text, from);
        lemma_words_are_non_empty(text, end);
        let head = seq![text.subrange(from, end)];
        let tail = words_from(text, end);
        let all = words_from(text, from);
        assert(all == head + tail);
        assert forall|i: int| 0 <= i < all.len() implies (#[trigger] all[i]).len() > 0 by {
            if i > 0 {
                assert(all[i] == tail[i - 1]);
            } else {
                assert(all[i] == text.subrange(from, end));
            }
        }
    }
}

/// A word that starts on a character which is not white space ends after it
/// and within the text.
proof fn lemma_word_end_bounds(text: Seq<char>, from: int)
    requires
        0 <= from < text.len(),
        !white_space(text[from]),
    ensures
        from < word_end(text, from) <= text.len(),
    decreases text.len() - from,
{
    assert(word_end(text, from) == word_end(text, from + 1));
    if from + 1 < text.len() && !white_space(text[from + 1]) {
        lemma_word_end_bounds(text, from + 1);
    }
}

/// Copies the characters of `text` between two indices.
fn copy_range(text: &Vec<char>, from: usize, to: usize) -> (out: Vec<char>)
    requires
        from <= to <= text@.len(),
    ensures
        out@ == text@.subrange(from as int, to as int),
{
    let mut out: Vec<char> = Vec::new();
    let mut at: usize = from;
    while at < to
        invariant
            from <= at <= to,
            to <= text@.len(),
            out@ == text@.subrange(from as int, at as int),
        decreases to - at,
    {
        out.push(text[at]);
        at += 1;
        assert(out@ =~= text@.subrange(from as int, at as int));
    }
    out
}

/// Splits a text into its words.
pub fn split_words(text: &Vec<char>) -> (out: Vec<Vec<char>>)
    ensures
        views_of(out@) == words(text@),
{
    let len = text.len();
    let mut out: Vec<Vec<char>> = Vec::new();
    let mut at: usize = 0;
    assert(views_of(out@) + words_from(text@, 0) =~= words(text@));
    while at < len
        invariant
            at <= len,
            len == text@.len(),
            views_of(out@) + words_from(text@, at as int) == words(text@),
        decreases len - at,
    {
        if is_whitespace(text[at]) {
            at += 1;
        } else {
            let start = at;
            let ghost done = views_of(out@);
            while at < len && !is_whitespace(text[at])
                invariant
                    start <= at <= len,
                    len == text@.len(),
                    word_end(text@, start as int) == word_end(text@, at as int),
                decreases len - at,
            {
                at += 1;
            }
            let word = copy_range(text, start, at);
            out.push(word);
            assert(views_of(out@) =~= done.push(text@.subrange(start as int, at as int)));
            assert(done.push(text@.subrange(start as int, at as int)) + words_from(
                text@,
                at as int,
            ) =~= done + (seq![text@.subrange(start as int, at as int)] + words_from(
                text@,
                at as int,
            )));
        }
    }
    assert(views_of(out@) + words_from(text@, at as int) =~= views_of(out@));
    out
}

} // verus!
