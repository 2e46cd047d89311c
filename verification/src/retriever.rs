//! Keyword retrieval over the corpus.
//!
//! A query is lower-cased and split into terms. Every document is scored by
//! how often the terms occur in it, documents without any match are dropped,
//! the rest is ranked by score with ties kept in corpus order, and the best
//! three are returned as passages with their sources.

use crate::knowledge_base::{
    corpus, document_views, get_all_documents, Document, DocumentView,
};
use crate::score::Score;
use crate::text::{
    chars_of, contains, count_occurrences, lemma_words_are_non_empty, lowercase_of, occurrences,
    occurs_in, split_words, to_lowercase, views_of, words,
};
use vstd::prelude::*;
use vstd::string::StringExecFns;

verus! {

/// The number of passages a retrieval returns at most.
pub const TOP_K: usize = 3;

pub const PASSAGE_OPEN: &'static str = "[";

pub const PASSAGE_CLOSE: &'static str = "] ";

/// The terms of a query: the words of its lower-case form.
pub open spec fn query_terms(query: Seq<char>) -> Seq<Seq<char>> {
    words(lowercase_of(query))
}

/// What one term adds to the score of a document, in half points: two for
/// each occurrence in the content, four for each occurrence in the title,
/// and three when the category contains the term. All three texts are
/// compared in lower case.
pub open spec fn term_weight(doc: DocumentView, term: Seq<char>) -> nat {
    2 * occurrences(lowercase_of(doc.content), term) + 4 * occurrences(
        lowercase_of(doc.title),
        term,
    ) + if occurs_in(lowercase_of(doc.category), term) {
        3nat
    } else {
        0nat
    }
}

/// The score of a document for a list of terms, in half points: the sum of
/// the weights of the terms.
pub open spec fn score_of(doc: DocumentView, terms: Seq<Seq<char>>) -> nat
    decreases terms.len(),
{
    if terms.len() == 0 {
        0
    } else {
        score_of(doc, terms.drop_last()) + term_weight(doc, terms.last())
    }
}

/// The scores of all documents of a corpus, in corpus order.
pub open spec fn corpus_scores(docs: Seq<DocumentView>, terms: Seq<Seq<char>>) -> Seq<nat> {
    Seq::new(docs.len(), |i: int| score_of(docs[i], terms))
}

/// Document `a` comes before document `b` in the ranking: it has the higher
/// score, or the same score and the earlier place in the corpus.
pub open spec fn outranks(scores: Seq<nat>, a: int, b: int) -> bool {
    scores[a] > scores[b] || (scores[a] == scores[b] && a < b)
}

/// `order` lists exactly the documents with a positive score, each before
/// all those it outranks.
pub open spec fn is_ranking(scores: Seq<nat>, order: Seq<int>) -> bool {
    &&& forall|i: int|
        0 <= i < order.len() ==> 0 <= #[trigger] order[i] < scores.len() && scores[order[i]] > 0
    &&& forall|i: int, j: int|
        0 <= i < j < order.len() ==> outranks(scores, #[trigger] order[i], #[trigger] order[j])
    &&& forall|d: int| 0 <= d < scores.len() && #[trigger] scores[d] > 0 ==> order.contains(d)
}

/// The ranking of the documents with a positive score. There is exactly one
/// (`lemma_ranking_is_unique`).
pub open spec fn ranking(scores: Seq<nat>) -> Seq<int> {
    choose|order: Seq<int>| is_ranking(scores, order)
}

/// The first `TOP_K` entries of a ranking, or all of it when it is shorter.
pub open spec fn top_of(order: Seq<int>) -> Seq<int> {
    if order.len() > TOP_K {
        order.take(TOP_K as int)
    } else {
        order
    }
}

/// A document as it is quoted in context: its title in brackets, then its
/// content.
pub open spec fn passage(doc: DocumentView) -> Seq<char> {
    PASSAGE_OPEN@ + doc.title + PASSAGE_CLOSE@ + doc.content
}

/// The documents picked for a query: the top of the ranking by score.
pub open spec fn picks(docs: Seq<DocumentView>, query: Seq<char>) -> Seq<int> {
    top_of(ranking(corpus_scores(docs, query_terms(query))))
}

/// The passages retrieved for a query, best first.
pub open spec fn retrieved_passages(docs: Seq<DocumentView>, query: Seq<char>) -> Seq<Seq<char>> {
    Seq::new(picks(docs, query).len(), |i: int| passage(docs[picks(docs, query)[i]]))
}

/// The sources of the passages retrieved for a query, in the same order.
pub open spec fn retrieved_sources(docs: Seq<DocumentView>, query: Seq<char>) -> Seq<Seq<char>> {
    Seq::new(picks(docs, query).len(), |i: int| docs[picks(docs, query)[i]].source)
}

/// Two rankings of the same scores are equal.
pub proof fn lemma_ranking_is_unique(scores: Seq<nat>, first: Seq<int>, second: Seq<int>)
    requires
        is_ranking(scores, first),
        is_ranking(scores, second),
    ensures
        first == second,
{
    lemma_same_members_same_order(scores, first, second);
}

/// Two lists that are both sorted by `outranks` and hold the same documents
/// are equal.
proof fn lemma_same_members_same_order(scores: Seq<nat>, first: Seq<int>, second: Seq<int>)
    requires
        forall|i: int, j: int|
            0 <= i < j < first.len() ==> outranks(scores, #[trigger] first[i], #[trigger] first[j]),
        forall|i: int, j: int|
            0 <= i < j < second.len() ==> outranks(
                scores,
                #[trigger] second[i],
                #[trigger] second[j],
            ),
        forall|d: int| first.contains(d) <==> second.contains(d),
    ensures
        first == second,
    decreases first.len(),
{
    if first.len() == 0 {
        if second.len() > 0 {
            assert(second.contains(second[0]));
        }
        assert(first =~= second);
    } else {
        let head = first[0];
        assert(first.contains(head));
        let at = choose|at: int| 0 <= at < second.len() && second[at] == head;
        if at > 0 {
            let other = second[0];
            assert(outranks(scores, other, head));
            assert(second.contains(other));
            let back = choose|back: int| 0 <= back < first.len() && first[back] == other;
            if back > 0 {
                assert(outranks(scores, first[0], first[back]));
            }
        }
        assert(second[0] == head);
        let rest_first = first.drop_first();
        let rest_second = second.drop_first();
        assert forall|d: int| rest_first.contains(d) <==> rest_second.contains(d) by {
            if rest_first.contains(d) {
                let i = choose|i: int| 0 <= i < rest_first.len() && rest_first[i] == d;
                assert(first[i + 1] == d);
                assert(outranks(scores, first[0], first[i + 1]));
                assert(first.contains(d));
                let j = choose|j: int| 0 <= j < second.len() && second[j] == d;
                assert(j > 0);
                assert(rest_second[j - 1] == d);
            }
            if rest_second.contains(d) {
                let i = choose|i: int| 0 <= i < rest_second.len() && rest_second[i] == d;
                assert(second[i + 1] == d);
                assert(outranks(scores, second[0], second[i + 1]));
                assert(second.contains(d));
                let j = choose|j: int| 0 <= j < first.len() && first[j] == d;
                assert(j > 0);
                assert(rest_first[j - 1] == d);
            }
        }
        assert forall|i: int, j: int| 0 <= i < j < rest_first.len() implies outranks(
            scores,
            #[trigger] rest_first[i],
            #[trigger] rest_first[j],
        ) by {
            assert(outranks(scores, first[i + 1], first[j + 1]));
        }
        assert forall|i: int, j: int| 0 <= i < j < rest_second.len() implies outranks(
            scores,
            #[trigger] rest_second[i],
            #[trigger] rest_second[j],
        ) by {
            assert(outranks(scores, second[i + 1], second[j + 1]));
        }
        lemma_same_members_same_order(scores, rest_first, rest_second);
        assert(first =~= seq![head] + rest_first);
        assert(second =~= seq![head] + rest_second);
    }
}

/// A document as the scorer reads it: content, title and category in
/// lower case, character by character.
pub struct LoweredDocument {
    pub content: Vec<char>,
    pub title: Vec<char>,
    pub category: Vec<char>,
}

impl LoweredDocument {
    /// Whether this holds the lower-case texts of `doc`.
    pub open spec fn is_lowered(self, doc: DocumentView) -> bool {
        &&& self.content@ == lowercase_of(doc.content)
        &&& self.title@ == lowercase_of(doc.title)
        &&& self.category@ == lowercase_of(doc.category)
    }
}

/// Lower-cases the texts of a document that scoring looks at.
pub fn lower_document(doc: &Document) -> (lowered: LoweredDocument)
    ensures
        lowered.is_lowered(doc@),
{
    let content = to_lowercase(doc.content.as_str());
    let title = to_lowercase(doc.title.as_str());
    let category = to_lowercase(doc.category.as_str());
    LoweredDocument {
        content: chars_of(content.as_str()),
        title: chars_of(title.as_str()),
        category: chars_of(category.as_str()),
    }
}

/// How often a term occurs in a text, as a number that always fits.
fn count_term(text: &Vec<char>, term: &Vec<char>) -> (count: u128)
    ensures
        count == occurrences(text@, term@),
        count <= usize::MAX + 1,
{
    if term.len() == 0 {
        let length = text.len() as u128;
        length + 1
    } else {
        count_occurrences(text, term) as u128
    }
}

/// The weight of one term for a document, in half points.
fn weigh_term(lowered: &LoweredDocument, doc: Ghost<DocumentView>, term: &Vec<char>) -> (weight:
    u128)
    requires
        lowered.is_lowered(doc@),
    ensures
        weight == term_weight(doc@, term@),
{
    let in_content = count_term(&lowered.content, term);
    let in_title = count_term(&lowered.title, term);
    let in_category: u128 = if contains(&lowered.category, term) {
        3
    } else {
        0
    };
    2 * in_content + 4 * in_title + in_category
}

/// Scores a document for a list of terms.
pub fn score_document(doc: &Document, terms: &Vec<Vec<char>>) -> (score: Score)
    ensures
        score.halves() == score_of(doc@, views_of(terms@)),
{
    let lowered = lower_document(doc);
    let ghost all = views_of(terms@);
    let mut score = Score::zero();
    let mut i: usize = 0;
    while i < terms.len()
        invariant
            i <= terms@.len(),
            all == views_of(terms@),
            lowered.is_lowered(doc@),
            score.halves() == score_of(doc@, all.take(i as int)),
            score.carried() <= i,
        decreases terms@.len() - i,
    {
        assert(all.take(i + 1).drop_last() =~= all.take(i as int));
        assert(all.take(i + 1).last() == terms@[i as int]@);
        let weight = weigh_term(&lowered, Ghost(doc@), &terms[i]);
        score = score.plus(weight);
        i += 1;
    }
    assert(all.take(terms@.len() as int) =~= all);
    score
}

/// The numbers of half points of a list of scores.
pub open spec fn halves_of(scores: Seq<Score>) -> Seq<nat> {
    Seq::new(scores.len(), |i: int| scores[i].halves())
}

/// Scores every document of a corpus for a list of terms.
pub fn score_corpus(docs: &Vec<Document>, terms: &Vec<Vec<char>>) -> (scores: Vec<Score>)
    ensures
        halves_of(scores@) == corpus_scores(document_views(docs@), views_of(terms@)),
{
    let mut scores: Vec<Score> = Vec::new();
    let mut i: usize = 0;
    while i < docs.len()
        invariant
            i <= docs@.len(),
            scores@.len() == i,
            forall|j: int|
                0 <= j < i ==> (#[trigger] scores@[j]).halves() == score_of(
                    docs@[j]@,
                    views_of(terms@),
                ),
        decreases docs@.len() - i,
    {
        let score = score_document(&docs[i], terms);
        scores.push(score);
        i += 1;
    }
    assert(halves_of(scores@) =~= corpus_scores(document_views(docs@), views_of(terms@)));
    scores
}

/// Splits a query into its terms.
pub fn terms_of(query: &str) -> (terms: Vec<Vec<char>>)
    ensures
        views_of(terms@) == query_terms(query@),
        forall|i: int| 0 <= i < terms@.len() ==> (#[trigger] terms@[i])@.len() > 0,
{
    let lower = to_lowercase(query);
    let chars = chars_of(lower.as_str());
    let terms = split_words(&chars);
    proof {
        lemma_words_are_non_empty(chars@, 0);
        assert forall|i: int| 0 <= i < terms@.len() implies (#[trigger] terms@[i])@.len() > 0 by {
            assert(views_of(terms@)[i] == terms@[i]@);
        }
    }
    terms
}

/// `order` ranks the documents with a positive score among the first `n`.
pub open spec fn ranks_first(scores: Seq<nat>, order: Seq<int>, n: int) -> bool {
    &&& 0 <= n <= scores.len()
    &&& forall|i: int| 0 <= i < order.len() ==> 0 <= #[trigger] order[i] < n && scores[order[i]] > 0
    &&& forall|i: int, j: int|
        0 <= i < j < order.len() ==> outranks(scores, #[trigger] order[i], #[trigger] order[j])
    &&& forall|d: int| 0 <= d < n && #[trigger] scores[d] > 0 ==> order.contains(d)
}

/// Putting the next document behind all ranked documents that score at
/// least as high, and before the first that scores lower, ranks one
/// document more.
proof fn lemma_insert_ranks_one_more(scores: Seq<nat>, order: Seq<int>, d: int, at: int)
    requires
        ranks_first(scores, order, d),
        d < scores.len(),
        scores[d] > 0,
        0 <= at <= order.len(),
        forall|i: int| 0 <= i < at ==> scores[#[trigger] order[i]] >= scores[d],
        at < order.len() ==> scores[order[at]] < scores[d],
    ensures
        ranks_first(scores, order.insert(at, d), d + 1),
{
    let next = order.insert(at, d);
    assert(next.len() == order.len() + 1);
    assert forall|i: int| 0 <= i < next.len() implies #[trigger] next[i] == (if i < at {
        order[i]
    } else if i == at {
        d
    } else {
        order[i - 1]
    }) by {}
    assert forall|i: int, j: int| 0 <= i < j < next.len() implies outranks(
        scores,
        #[trigger] next[i],
        #[trigger] next[j],
    ) by {
        if j == at {
            assert(scores[order[i]] >= scores[d]);
        } else if i == at {
            if j - 1 > at {
                assert(outranks(scores, order[at], order[j - 1]));
            }
        } else if i < at {
            if j > at {
                assert(outranks(scores, order[i], order[j - 1]));
            } else {
                assert(outranks(scores, order[i], order[j]));
            }
        } else {
            assert(outranks(scores, order[i - 1], order[j - 1]));
        }
    }
    assert forall|e: int| 0 <= e < d + 1 && #[trigger] scores[e] > 0 implies next.contains(e) by {
        if e == d {
            assert(next[at] == e);
        } else {
            assert(order.contains(e));
            let i = choose|i: int| 0 <= i < order.len() && order[i] == e;
            if i < at {
                assert(next[i] == e);
            } else {
                assert(next[i + 1] == e);
            }
        }
    }
}

/// A document of the corpus, by its index, with its score.
#[derive(Clone, Copy, Debug)]
pub struct ScoredDocument {
    pub index: usize,
    pub score: Score,
}

/// The indices of a list of scored documents.
pub open spec fn indices_of(ranked: Seq<ScoredDocument>) -> Seq<int> {
    Seq::new(ranked.len(), |i: int| ranked[i].index as int)
}

/// Ranks the documents with a positive score: highest score first, equal
/// scores in corpus order.
pub fn rank(scores: &Vec<Score>) -> (ranked: Vec<ScoredDocument>)
    ensures
        indices_of(ranked@) == ranking(halves_of(scores@)),
        is_ranking(halves_of(scores@), indices_of(ranked@)),
        forall|i: int|
            0 <= i < ranked@.len() ==> (#[trigger] ranked@[i]).score.halves() == halves_of(
                scores@,
            )[ranked@[i].index as int],
{
    let ghost all = halves_of(scores@);
    let mut ranked: Vec<ScoredDocument> = Vec::new();
    let mut d: usize = 0;
    while d < scores.len()
        invariant
            d <= scores@.len(),
            all == halves_of(scores@),
            ranks_first(all, indices_of(ranked@), d as int),
            forall|i: int|
                0 <= i < ranked@.len() ==> (#[trigger] ranked@[i]).score.halves()
                    == all[ranked@[i].index as int],
        decreases scores@.len() - d,
    {
        let score = scores[d];
        if score.is_positive() {
            let ghost order = indices_of(ranked@);
            let mut at: usize = 0;
            while at < ranked.len() && !score.exceeds(&ranked[at].score)
                invariant
                    at <= ranked@.len(),
                    order == indices_of(ranked@),
                    all == halves_of(scores@),
                    d < scores@.len(),
                    score == scores@[d as int],
                    forall|i: int|
                        0 <= i < ranked@.len() ==> (#[trigger] ranked@[i]).score.halves()
                            == all[ranked@[i].index as int],
                    forall|i: int| 0 <= i < at ==> all[#[trigger] order[i]] >= all[d as int],
                decreases ranked@.len() - at,
            {
                assert(order[at as int] == ranked@[at as int].index);
                at += 1;
            }
            proof {
                if at < ranked@.len() {
                    assert(order[at as int] == ranked@[at as int].index);
                }
                lemma_insert_ranks_one_more(all, order, d as int, at as int);
            }
            ranked.insert(at, ScoredDocument { index: d, score });
            assert(indices_of(ranked@) =~= order.insert(at as int, d as int));
        }
        d += 1;
    }
    proof {
        lemma_ranking_is_unique(all, indices_of(ranked@), ranking(all));
    }
    ranked
}

/// The texts of a list of strings.
pub open spec fn string_views(items: Seq<String>) -> Seq<Seq<char>> {
    Seq::new(items.len(), |i: int| items[i]@)
}

/// Quotes a document as a passage.
pub fn quote(doc: &Document) -> (text: String)
    ensures
        text@ == passage(doc@),
{
    let mut text = String::from_str(PASSAGE_OPEN);
    text.append(doc.title.as_str());
    text.append(PASSAGE_CLOSE);
    text.append(doc.content.as_str());
    text
}

/// Retrieves from a given corpus: the passages for a query, best first, and
/// their sources in the same order.
pub fn retrieve_from(docs: &Vec<Document>, query: &str) -> (found: (Vec<String>, Vec<String>))
    ensures
        string_views(found.0@) == retrieved_passages(document_views(docs@), query@),
        string_views(found.1@) == retrieved_sources(document_views(docs@), query@),
        found.0@.len() == found.1@.len(),
        found.0@.len() <= TOP_K,
{
    let terms = terms_of(query);
    let scores = score_corpus(docs, &terms);
    let ranked = rank(&scores);
    let ghost views = document_views(docs@);
    let ghost chosen = picks(views, query@);
    let count = if ranked.len() > TOP_K {
        TOP_K
    } else {
        ranked.len()
    };
    assert(chosen =~= indices_of(ranked@).take(count as int));
    let mut passages: Vec<String> = Vec::new();
    let mut sources: Vec<String> = Vec::new();
    let mut i: usize = 0;
    while i < count
        invariant
            i <= count <= ranked@.len(),
            views == document_views(docs@),
            chosen == indices_of(ranked@).take(count as int),
            is_ranking(halves_of(scores@), indices_of(ranked@)),
            halves_of(scores@).len() == docs@.len(),
            passages@.len() == i,
            sources@.len() == i,
            forall|j: int| 0 <= j < i ==> (#[trigger] passages@[j])@ == passage(views[chosen[j]]),
            forall|j: int| 0 <= j < i ==> (#[trigger] sources@[j])@ == views[chosen[j]].source,
        decreases count - i,
    {
        let index = ranked[i].index;
        assert(indices_of(ranked@)[i as int] == index);
        let doc = &docs[index];
        passages.push(quote(doc));
        sources.push(doc.source.clone());
        i += 1;
    }
    assert(string_views(passages@) =~= retrieved_passages(views, query@));
    assert(string_views(sources@) =~= retrieved_sources(views, query@));
    (passages, sources)
}

/// Retrieves from the built-in corpus: the passages for a query, best
/// first, and their sources in the same order. A query that matches
/// nothing gives two empty lists.
pub fn retrieve(query: &str) -> (found: (Vec<String>, Vec<String>))
    ensures
        string_views(found.0@) == retrieved_passages(corpus(), query@),
        string_views(found.1@) == retrieved_sources(corpus(), query@),
        found.0@.len() == found.1@.len(),
        found.0@.len() <= TOP_K,
{
    let docs = get_all_documents();
    retrieve_from(&docs, query)
}

/// Whether a document belongs to a category, whatever the case of the
/// letters.
pub open spec fn in_category(doc: DocumentView, category: Seq<char>) -> bool {
    lowercase_of(doc.category) == lowercase_of(category)
}

/// The documents of a category, in corpus order.
pub open spec fn category_members(docs: Seq<DocumentView>, category: Seq<char>) -> Seq<
    DocumentView,
> {
    docs.filter(|doc: DocumentView| in_category(doc, category))
}

/// The documents of the built-in corpus whose category is `category`,
/// compared without regard to case, in corpus order.
pub fn retrieve_by_category(category: &str) -> (found: Vec<Document>)
    ensures
        document_views(found@) == category_members(corpus(), category@),
{
    let docs = get_all_documents();
    let wanted = to_lowercase(category);
    let ghost views = document_views(docs@);
    let ghost belongs = |doc: DocumentView| in_category(doc, category@);
    let mut found: Vec<Document> = Vec::new();
    let mut i: usize = 0;
    assert(views.take(0).filter(belongs) =~= Seq::<DocumentView>::empty());
    while i < docs.len()
        invariant
            i <= docs@.len(),
            views == document_views(docs@),
            wanted@ == lowercase_of(category@),
            belongs == |doc: DocumentView| in_category(doc, category@),
            document_views(found@) == views.take(i as int).filter(belongs),
        decreases docs@.len() - i,
    {
        let doc = &docs[i];
        let own = to_lowercase(doc.category.as_str());
        proof {
            assert(views.take(i + 1).drop_last() =~= views.take(i as int));
            assert(views.take(i + 1).last() == doc@);
            reveal(Seq::filter);
        }
        let ghost before = document_views(found@);
        if own == wanted {
            found.push(doc.duplicate());
            assert(document_views(found@) =~= before.push(doc@));
        }
        i += 1;
    }
    assert(views.take(docs@.len() as int) =~= views);
    found
}

/// Finds where the next document goes into a partial ranking.
proof fn find_slot(scores: Seq<nat>, order: Seq<int>, d: int, from: int) -> (at: int)
    requires
        0 <= from <= order.len(),
        forall|i: int| 0 <= i < from ==> scores[#[trigger] order[i]] >= scores[d],
    ensures
        from <= at <= order.len(),
        forall|i: int| 0 <= i < at ==> scores[#[trigger] order[i]] >= scores[d],
        at < order.len() ==> scores[order[at]] < scores[d],
    decreases order.len() - from,
{
    if from == order.len() || scores[order[from]] < scores[d] {
        from
    } else {
        find_slot(scores, order, d, from + 1)
    }
}

/// Builds a ranking of the first `n` documents.
proof fn build_ranking(scores: Seq<nat>, n: int) -> (order: Seq<int>)
    requires
        0 <= n <= scores.len(),
    ensures
        ranks_first(scores, order, n),
    decreases n,
{
    if n == 0 {
        Seq::empty()
    } else {
        let before = build_ranking(scores, n - 1);
        if scores[n - 1] > 0 {
            let at = find_slot(scores, before, n - 1, 0);
            lemma_insert_ranks_one_more(scores, before, n - 1, at);
            before.insert(at, n - 1)
        } else {
            before
        }
    }
}

/// Every list of scores has its ranking.
pub proof fn lemma_ranking_exists(scores: Seq<nat>)
    ensures
        is_ranking(scores, ranking(scores)),
{
    let order = build_ranking(scores, scores.len() as int);
    assert(is_ranking(scores, order));
}

/// A query that matches no document retrieves nothing: when every document
/// scores zero, there are neither passages nor sources.
pub proof fn lemma_no_match_retrieves_nothing(docs: Seq<DocumentView>, query: Seq<char>)
    requires
        forall|d: int| 0 <= d < docs.len() ==> score_of(#[trigger] docs[d], query_terms(query)) == 0,
    ensures
        retrieved_passages(docs, query).len() == 0,
        retrieved_sources(docs, query).len() == 0,
{
    let scores = corpus_scores(docs, query_terms(query));
    let none = Seq::<int>::empty();
    assert forall|d: int| 0 <= d < scores.len() implies #[trigger] scores[d] == 0 by {
        assert(scores[d] == score_of(docs[d], query_terms(query)));
    }
    assert(is_ranking(scores, none));
    lemma_ranking_exists(scores);
    lemma_ranking_is_unique(scores, ranking(scores), none);
}

/// A retrieval returns at most `TOP_K` documents, each with a positive
/// score, and their scores never rise from one to the next.
pub proof fn lemma_picks_are_few_and_descending(docs: Seq<DocumentView>, query: Seq<char>)
    ensures
        picks(docs, query).len() <= TOP_K,
        retrieved_passages(docs, query).len() == picks(docs, query).len(),
        retrieved_sources(docs, query).len() == picks(docs, query).len(),
        forall|i: int|
            0 <= i < picks(docs, query).len() ==> 0 <= #[trigger] picks(docs, query)[i]
                < docs.len() && score_of(docs[picks(docs, query)[i]], query_terms(query)) > 0,
        forall|i: int, j: int|
            0 <= i <= j < picks(docs, query).len() ==> score_of(
                docs[#[trigger] picks(docs, query)[i]],
                query_terms(query),
            ) >= score_of(docs[#[trigger] picks(docs, query)[j]], query_terms(query)),
{
    let scores = corpus_scores(docs, query_terms(query));
    let order = ranking(scores);
    let chosen = picks(docs, query);
    lemma_ranking_exists(scores);
    assert forall|i: int| 0 <= i < chosen.len() implies chosen[i] == order[i] by {}
    assert forall|i: int| 0 <= i < chosen.len() implies 0 <= #[trigger] chosen[i] < docs.len()
        && score_of(docs[chosen[i]], query_terms(query)) > 0 by {
        assert(0 <= order[i] < scores.len() && scores[order[i]] > 0);
    }
    assert forall|i: int, j: int| 0 <= i <= j < chosen.len() implies score_of(
        docs[#[trigger] chosen[i]],
        query_terms(query),
    ) >= score_of(docs[#[trigger] chosen[j]], query_terms(query)) by {
        assert(0 <= order[i] < scores.len() && 0 <= order[j] < scores.len());
        if i < j {
            assert(outranks(scores, order[i], order[j]));
        }
    }
}

/// Ties keep corpus order: of two retrieved documents with the same score,
/// the one that stands earlier in the corpus is returned first. No document
/// is returned twice.
pub proof fn lemma_ties_keep_corpus_order(docs: Seq<DocumentView>, query: Seq<char>, i: int, j: int)
    requires
        0 <= i < j < picks(docs, query).len(),
    ensures
        picks(docs, query)[i] != picks(docs, query)[j],
        score_of(docs[picks(docs, query)[i]], query_terms(query)) == score_of(
            docs[picks(docs, query)[j]],
            query_terms(query),
        ) ==> picks(docs, query)[i] < picks(docs, query)[j],
{
    let scores = corpus_scores(docs, query_terms(query));
    let order = ranking(scores);
    lemma_ranking_exists(scores);
    assert(picks(docs, query)[i] == order[i]);
    assert(picks(docs, query)[j] == order[j]);
    assert(0 <= order[i] < scores.len() && 0 <= order[j] < scores.len());
    assert(outranks(scores, order[i], order[j]));
}

/// Nothing better is left out: a document that has a positive score and is
/// not retrieved is outranked by every retrieved document, and the
/// retrieval is full.
pub proof fn lemma_picks_are_the_best(docs: Seq<DocumentView>, query: Seq<char>, d: int)
    requires
        0 <= d < docs.len(),
        score_of(docs[d], query_terms(query)) > 0,
        !picks(docs, query).contains(d),
    ensures
        picks(docs, query).len() == TOP_K,
        forall|i: int|
            0 <= i < picks(docs, query).len() ==> outranks(
                corpus_scores(docs, query_terms(query)),
                #[trigger] picks(docs, query)[i],
                d,
            ),
{
    let scores = corpus_scores(docs, query_terms(query));
    let order = ranking(scores);
    let chosen = picks(docs, query);
    lemma_ranking_exists(scores);
    assert(scores[d] > 0);
    assert(order.contains(d));
    let at = choose|at: int| 0 <= at < order.len() && order[at] == d;
    if at < chosen.len() {
        assert(chosen[at] == d);
    }
    assert forall|i: int| 0 <= i < chosen.len() implies outranks(scores, #[trigger] chosen[i], d) by {
        assert(chosen[i] == order[i]);
        assert(outranks(scores, order[i], order[at]));
    }
}

} // verus!
