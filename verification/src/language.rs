//! Language detection for incoming queries.
//!
//! Three languages are told apart: English, Hindi and Marathi. The last two
//! share the Devanagari script and are separated by counting which of two
//! lists of common words occur in the text.

use crate::text::{chars_of, contains, occurs_in, same_text};
use vstd::prelude::*;

verus! {

/// The languages the assistant answers in.
#[derive(Clone, Copy, Debug, PartialEq, Eq, Structural)]
pub enum Language {
    English,
    Hindi,
    Marathi,
}

pub const ENGLISH_CODE: &'static str = "en";

pub const HINDI_CODE: &'static str = "hi";

pub const MARATHI_CODE: &'static str = "mr";

/// Words that are common in Hindi farming questions.
pub const HINDI_MARKERS: [&'static str; 26] = [
    "क्या", "है", "में", "को", "की", "का", "और", "से", "पर", "कैसे",
    "खेती", "फसल", "मंडी", "किसान", "बारिश", "मिट्टी", "कीट", "रोग",
    "आज", "कल", "अभी", "कितना", "कौन", "कहाँ", "भाव", "पानी",
];

/// Words that are common in Marathi farming questions.
pub const MARATHI_MARKERS: [&'static str; 24] = [
    "काय", "आहे", "मध्ये", "ला", "ची", "चा", "आणि", "वर", "कसा",
    "शेती", "पीक", "बाजार", "शेतकरी", "पाऊस", "माती", "कीड", "रोग",
    "आज", "उद्या", "आता", "किती", "कोण", "कुठे", "भाव",
];

impl Language {
    /// The two-letter code of a language.
    pub open spec fn code_text(self) -> Seq<char> {
        match self {
            Language::English => ENGLISH_CODE@,
            Language::Hindi => HINDI_CODE@,
            Language::Marathi => MARATHI_CODE@,
        }
    }

    /// The language a code stands for. Any code but `hi` and `mr` stands for
    /// English.
    pub open spec fn of_code(code: Seq<char>) -> Language {
        if code == HINDI_CODE@ {
            Language::Hindi
        } else if code == MARATHI_CODE@ {
            Language::Marathi
        } else {
            Language::English
        }
    }

    pub fn code(&self) -> (code: &'static str)
        ensures
            code@ == self.code_text(),
    {
        match self {
            Language::English => ENGLISH_CODE,
            Language::Hindi => HINDI_CODE,
            Language::Marathi => MARATHI_CODE,
        }
    }

    pub fn from_code(code: &str) -> (language: Language)
        ensures
            language == Language::of_code(code@),
    {
        if same_text(code, HINDI_CODE) {
            Language::Hindi
        } else if same_text(code, MARATHI_CODE) {
            Language::Marathi
        } else {
            Language::English
        }
    }
}

/// A character of the Devanagari block.
pub open spec fn is_devanagari(c: char) -> bool {
    '\u{0900}' <= c && c <= '\u{097F}'
}

/// Some character of the text belongs to the Devanagari block.
pub open spec fn has_devanagari(text: Seq<char>) -> bool {
    exists|i: int| 0 <= i < text.len() && is_devanagari(#[trigger] text[i])
}

/// The texts of a list of words.
pub open spec fn texts_of(words: Seq<&'static str>) -> Seq<Seq<char>> {
    Seq::new(words.len(), |i: int| words[i]@)
}

/// How many of the `markers` occur somewhere in `text`. A marker counts once
/// however often it occurs, and a marker that is listed twice counts twice.
pub open spec fn marker_hits(text: Seq<char>, markers: Seq<Seq<char>>) -> nat
    decreases markers.len(),
{
    if markers.len() == 0 {
        0
    } else {
        marker_hits(text, markers.drop_last()) + if occurs_in(text, markers.last()) {
            1nat
        } else {
            0nat
        }
    }
}

/// The language of a text: English when it holds no Devanagari character,
/// Marathi when more Marathi markers than Hindi markers occur in it, and
/// Hindi otherwise.
pub open spec fn detected(text: Seq<char>) -> Language {
    if !has_devanagari(text) {
        Language::English
    } else if marker_hits(text, texts_of(MARATHI_MARKERS@)) > marker_hits(
        text,
        texts_of(HINDI_MARKERS@),
    ) {
        Language::Marathi
    } else {
        Language::Hindi
    }
}

/// Decides `has_devanagari`.
pub fn contains_devanagari(text: &Vec<char>) -> (found: bool)
    ensures
        found == has_devanagari(text@),
{
    let mut i: usize = 0;
    while i < text.len()
        invariant
            i <= text@.len(),
            forall|j: int| 0 <= j < i ==> !is_devanagari(#[trigger] text@[j]),
        decreases text@.len() - i,
    {
        let c = text[i];
        if c >= '\u{0900}' && c <= '\u{097F}' {
            return true;
        }
        i += 1;
    }
    false
}

/// Counts the markers that occur in the text.
pub fn count_marker_hits<const N: usize>(text: &Vec<char>, markers: &[&'static str; N]) -> (hits:
    usize)
    ensures
        hits == marker_hits(text@, texts_of(markers@)),
        hits <= N,
{
    let ghost all = texts_of(markers@);
    let mut hits: usize = 0;
    let mut i: usize = 0;
    while i < N
        invariant
            i <= N,
            hits <= i,
            N == markers@.len(),
            all == texts_of(markers@),
            hits == marker_hits(text@, all.take(i as int)),
        decreases N - i,
    {
        let marker = chars_of(markers[i]);
        assert(all.take(i + 1).drop_last() =~= all.take(i as int));
        if contains(text, &marker) {
            hits += 1;
        }
        i += 1;
    }
    assert(all.take(N as int) =~= all);
    hits
}

/// Detects the language of a text.
pub fn detect(text: &str) -> (language: Language)
    ensures
        language == detected(text@),
{
    let chars = chars_of(text);
    if !contains_devanagari(&chars) {
        return Language::English;
    }
    let hindi = count_marker_hits(&chars, &HINDI_MARKERS);
    let marathi = count_marker_hits(&chars, &MARATHI_MARKERS);
    if marathi > hindi {
        Language::Marathi
    } else {
        Language::Hindi
    }
}

/// Detects the language of a text and gives its code: `en`, `hi` or `mr`.
pub fn detect_language(text: &str) -> (code: String)
    ensures
        code@ == detected(text@).code_text(),
{
    String::from_str(detect(text).code())
}

/// Text without Devanagari characters is English; in particular the empty
/// text is.
pub proof fn lemma_plain_text_is_english(text: Seq<char>)
    requires
        forall|i: int| 0 <= i < text.len() ==> !is_devanagari(#[trigger] text[i]),
    ensures
        detected(text) == Language::English,
{
}

/// Devanagari text is never English, and it is Hindi whenever the Marathi
/// markers in it do not outnumber the Hindi ones: ties go to Hindi.
pub proof fn lemma_devanagari_defaults_to_hindi(text: Seq<char>)
    requires
        has_devanagari(text),
    ensures
        detected(text) != Language::English,
        marker_hits(text, texts_of(MARATHI_MARKERS@)) <= marker_hits(
            text,
            texts_of(HINDI_MARKERS@),
        ) ==> detected(text) == Language::Hindi,
{
}

} // verus!
