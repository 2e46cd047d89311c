//! Glossing of farming vocabulary between Hindi and English.
//!
//! Nothing here translates. A question in Hindi or Marathi is handed on as
//! it is, followed by the English of every farming term found in it, and so
//! unchanged when there is none; an English answer can be given the Hindi of
//! such terms in parentheses.

use crate::language::{HINDI_CODE, MARATHI_CODE};
use crate::text::{chars_of, contains, occurs_in, same_text};
use regex::{Captures, Error, Regex};
use vstd::prelude::*;
use vstd::string::StringExecFns;

verus! {

/// Hindi farming terms and their English, in the order in which hints are
/// appended.
pub const HINDI_TO_ENGLISH: [(&'static str, &'static str); 19] = [
    ("गेहूं", "wheat"),
    ("धान", "rice/paddy"),
    ("टमाटर", "tomato"),
    ("प्याज", "onion"),
    ("आलू", "potato"),
    ("मंडी", "market/mandi"),
    ("भाव", "price"),
    ("खेती", "farming"),
    ("फसल", "crop"),
    ("किसान", "farmer"),
    ("बारिश", "rain"),
    ("पानी", "water"),
    ("सिंचाई", "irrigation"),
    ("कीट", "pest"),
    ("रोग", "disease"),
    ("मिट्टी", "soil"),
    ("खाद", "fertilizer"),
    ("बीज", "seed"),
    ("हंगाम", "season"),
];

/// English farming terms and their Hindi, in the order in which they are
/// glossed.
pub const ENGLISH_TO_HINDI: [(&'static str, &'static str); 21] = [
    ("wheat", "गेहूं"),
    ("rice", "धान"),
    ("paddy", "धान"),
    ("tomato", "टमाटर"),
    ("onion", "प्याज"),
    ("potato", "आलू"),
    ("market", "मंडी"),
    ("mandi", "मंडी"),
    ("price", "भाव/दाम"),
    ("farming", "खेती"),
    ("crop", "फसल"),
    ("farmer", "किसान"),
    ("rain", "बारिश"),
    ("water", "पानी"),
    ("irrigation", "सिंचाई"),
    ("pest", "कीट"),
    ("disease", "रोग"),
    ("soil", "मिट्टी"),
    ("fertilizer", "खाद"),
    ("seed", "बीज"),
    ("season", "मौसम"),
];

pub const HINT_OPEN: &'static str = " [";

pub const HINT_EQUALS: &'static str = "=";

pub const HINT_CLOSE: &'static str = "]";

pub const GLOSS_OPEN: &'static str = " (";

pub const GLOSS_CLOSE: &'static str = ")";

/// What precedes a term in its search pattern: ignore case, start at a word
/// boundary.
pub const PATTERN_PREFIX: &'static str = r"(?i)\b";

/// What follows a term in its search pattern: end at a word boundary.
pub const PATTERN_SUFFIX: &'static str = r"\b";

/// The texts of a list of pairs of words.
pub open spec fn pairs_of(entries: Seq<(&'static str, &'static str)>) -> Seq<
    (Seq<char>, Seq<char>),
> {
    Seq::new(entries.len(), |i: int| (entries[i].0@, entries[i].1@))
}

/// The hint for a term: ` [term=english]`.
pub open spec fn hint(term: Seq<char>, english: Seq<char>) -> Seq<char> {
    HINT_OPEN@ + term + HINT_EQUALS@ + english + HINT_CLOSE@
}

/// The hints for all terms of `entries` that occur in `text`, in the order
/// of `entries`.
pub open spec fn hints(text: Seq<char>, entries: Seq<(Seq<char>, Seq<char>)>) -> Seq<char>
    decreases entries.len(),
{
    if entries.len() == 0 {
        Seq::empty()
    } else {
        hints(text, entries.drop_last()) + if occurs_in(text, entries.last().0) {
            hint(entries.last().0, entries.last().1)
        } else {
            Seq::empty()
        }
    }
}

/// A question in Hindi or Marathi as it is handed on: the question itself,
/// followed by the hints for the farming terms in it. A question without
/// any such term is handed on as it is.
pub open spec fn annotated_query(text: Seq<char>) -> Seq<char> {
    text + hints(text, pairs_of(HINDI_TO_ENGLISH@))
}

/// Annotates a question in Hindi or Marathi with the English of the farming
/// terms found in it. The language it is in plays no part.
pub fn translate_to_english(text: &str, _from_lang: &str) -> (annotated: String)
    ensures
        annotated@ == annotated_query(text@),
{
    let chars = chars_of(text);
    let ghost entries = pairs_of(HINDI_TO_ENGLISH@);
    let mut annotated = String::from_str(text);
    let mut i: usize = 0;
    assert(entries.take(0) =~= Seq::<(Seq<char>, Seq<char>)>::empty());
    assert(annotated@ =~= text@ + hints(text@, entries.take(0)));
    while i < 19
        invariant
            i <= 19,
            chars@ == text@,
            entries == pairs_of(HINDI_TO_ENGLISH@),
            annotated@ == text@ + hints(text@, entries.take(i as int)),
        decreases 19 - i,
    {
        let (term, english) = HINDI_TO_ENGLISH[i];
        let needle = chars_of(term);
        assert(entries.take(i + 1).drop_last() =~= entries.take(i as int));
        assert(entries.take(i + 1).last() == (term@, english@));
        let ghost before = hints(text@, entries.take(i as int));
        if contains(&chars, &needle) {
            annotated.append(HINT_OPEN);
            annotated.append(term);
            annotated.append(HINT_EQUALS);
            annotated.append(english);
            annotated.append(HINT_CLOSE);
            assert(annotated@ =~= text@ + (before + hint(term@, english@)));
        } else {
            assert(annotated@ =~= text@ + (before + Seq::<char>::empty()));
        }
        i += 1;
    }
    assert(entries.take(19) =~= entries);
    annotated
}

/// A question in which no farming term occurs is handed on unchanged.
pub proof fn lemma_unknown_text_passes_through(text: Seq<char>)
    requires
        forall|i: int|
            0 <= i < HINDI_TO_ENGLISH@.len() ==> !occurs_in(
                text,
                (#[trigger] pairs_of(HINDI_TO_ENGLISH@)[i]).0,
            ),
    ensures
        annotated_query(text) == text,
{
    lemma_no_term_no_hint(text, pairs_of(HINDI_TO_ENGLISH@));
    assert(text + Seq::<char>::empty() =~= text);
}

/// Terms that do not occur leave no hint.
proof fn lemma_no_term_no_hint(text: Seq<char>, entries: Seq<(Seq<char>, Seq<char>)>)
    requires
        forall|i: int| 0 <= i < entries.len() ==> !occurs_in(text, (#[trigger] entries[i]).0),
    ensures
        hints(text, entries).len() == 0,
    decreases entries.len(),
{
    if entries.len() > 0 {
        let rest = entries.drop_last();
        assert forall|i: int| 0 <= i < rest.len() implies !occurs_in(text, (#[trigger] rest[i]).0) by {
            assert(rest[i] == entries[i]);
        }
        lemma_no_term_no_hint(text, rest);
        assert(entries.last() == entries[entries.len() - 1]);
    }
}

#[verifier::external_type_specification]
#[verifier::external_body]
pub struct ExRegex(Regex);

#[verifier::external_type_specification]
#[verifier::external_body]
pub struct ExRegexError(Error);

/// The regular expression that `Regex::new` compiles from a pattern, if it
/// accepts the pattern.
pub uninterp spec fn compiled(pattern: Seq<char>) -> Option<Regex>;

/// The text that `Regex::replace_all` makes of `text` when every match is
/// replaced by `glossed_match` of the match and `gloss`.
pub uninterp spec fn glossed(regex: Regex, text: Seq<char>, gloss: Seq<char>) -> Seq<char>;

/// A matched word followed by its gloss in parentheses.
pub open spec fn glossed_match(matched: Seq<char>, gloss: Seq<char>) -> Seq<char> {
    matched + GLOSS_OPEN@ + gloss + GLOSS_CLOSE@
}

/// Puts the gloss in parentheses behind a matched word.
pub fn gloss_match(matched: &str, gloss: &str) -> (text: String)
    ensures
        text@ == glossed_match(matched@, gloss@),
{
    let mut text = String::from_str(matched);
    text.append(GLOSS_OPEN);
    text.append(gloss);
    text.append(GLOSS_CLOSE);
    text
}

/// Trusted: `regex::Regex::new`. The contract names the expression that
/// comes out and says that an error is returned exactly when none does.
#[verifier::external_body]
pub(crate) fn compile(pattern: &str) -> (built: Result<Regex, Error>)
    ensures
        match built {
            Ok(regex) => compiled(pattern@) == Some(regex),
            Err(_) => compiled(pattern@) is None,
        },
{
    Regex::new(pattern)
}

/// Trusted: `regex::Regex::replace_all` with a replacer that calls
/// `gloss_match` on every whole match. The contract only names the result.
#[verifier::external_body]
pub(crate) fn gloss_matches(regex: &Regex, text: &str, gloss: &str) -> (out: String)
    ensures
        out@ == glossed(*regex, text@, gloss@),
{
    regex.replace_all(text, |found: &Captures| gloss_match(&found[0], gloss)).into_owned()
}

/// The pattern that finds an English term as a whole word, in any case.
pub open spec fn word_pattern(term: Seq<char>) -> Seq<char> {
    PATTERN_PREFIX@ + term + PATTERN_SUFFIX@
}

/// A text with one term glossed. A term whose pattern does not compile
/// leaves the text as it is.
pub open spec fn glossed_with(text: Seq<char>, entry: (Seq<char>, Seq<char>)) -> Seq<char> {
    match compiled(word_pattern(entry.0)) {
        Some(regex) => glossed(regex, text, entry.1),
        None => text,
    }
}

/// A text with the terms of `entries` glossed one after the other.
pub open spec fn glossed_through(text: Seq<char>, entries: Seq<(Seq<char>, Seq<char>)>) -> Seq<
    char,
>
    decreases entries.len(),
{
    if entries.len() == 0 {
        text
    } else {
        glossed_with(glossed_through(text, entries.drop_last()), entries.last())
    }
}

/// An English text as it is shown to a reader of `to_lang`: with Hindi
/// glosses for Hindi and Marathi, unchanged for any other language.
pub open spec fn glossed_for(text: Seq<char>, to_lang: Seq<char>) -> Seq<char> {
    if to_lang == HINDI_CODE@ || to_lang == MARATHI_CODE@ {
        glossed_through(text, pairs_of(ENGLISH_TO_HINDI@))
    } else {
        text
    }
}

/// Glosses one term in a text.
fn gloss_term(text: String, term: &str, gloss: &str) -> (out: String)
    ensures
        out@ == glossed_with(text@, (term@, gloss@)),
{
    let mut pattern = String::from_str(PATTERN_PREFIX);
    pattern.append(term);
    pattern.append(PATTERN_SUFFIX);
    match compile(pattern.as_str()) {
        Ok(regex) => gloss_matches(&regex, text.as_str(), gloss),
        Err(_) => text,
    }
}

/// Adds the Hindi of farming terms, in parentheses, to an English text for
/// readers of Hindi or Marathi. For any other language the text is returned
/// as it is.
pub fn translate_from_english(text: &str, to_lang: &str) -> (shown: String)
    ensures
        shown@ == glossed_for(text@, to_lang@),
{
    let mut shown = String::from_str(text);
    if !same_text(to_lang, HINDI_CODE) && !same_text(to_lang, MARATHI_CODE) {
        return shown;
    }
    let ghost entries = pairs_of(ENGLISH_TO_HINDI@);
    let mut i: usize = 0;
    assert(entries.take(0) =~= Seq::<(Seq<char>, Seq<char>)>::empty());
    while i < 21
        invariant
            i <= 21,
            entries == pairs_of(ENGLISH_TO_HINDI@),
            shown@ == glossed_through(text@, entries.take(i as int)),
        decreases 21 - i,
    {
        let (term, gloss) = ENGLISH_TO_HINDI[i];
        assert(entries.take(i + 1).drop_last() =~= entries.take(i as int));
        assert(entries.take(i + 1).last() == (term@, gloss@));
        shown = gloss_term(shown, term, gloss);
        i += 1;
    }
    assert(entries.take(21) =~= entries);
    shown
}

} // verus!
