//! The corpus: a fixed count of chapters, each an ordered list of numbered
//! verses, built once from a serialized resource document and immutable
//! afterwards.
//!
//! The expected document shape is an ordered list of exactly
//! [`CHAPTER_COUNT`] entries, one per chapter, each entry an ordered,
//! non-empty list of `[number, text]` pairs. Construction rejects any
//! document of another shape with [`CorpusError::Parse`] and returns no
//! partial corpus.

use rand::Rng;
use vstd::prelude::*;

use crate::language::Language;
use crate::resource::{node_view, nodes_view, lemma_nodes_view};
use crate::resource::{parse_resource, parsed_resource};
use crate::resource::{JsonNode, JsonNodeView};

verus! {

/// The fixed, canonical number of chapters in the corpus.
pub const CHAPTER_COUNT: usize = 114;

/// A verse, as a mathematical value: its number and its text.
pub struct VerseView {
    pub number: nat,
    pub text: Seq<char>,
}

/// A chapter, as a mathematical value: its 1-based number and its verses,
/// in source order.
pub struct ChapterView {
    pub number: nat,
    pub verses: Seq<VerseView>,
}

/// A corpus, as a mathematical value: its language and its chapters, in
/// chapter-number order.
pub struct CorpusView {
    pub language: Language,
    pub chapters: Seq<ChapterView>,
}

/// Why an operation on the corpus failed.
#[derive(Clone, Copy, Debug, PartialEq, Eq, Structural)]
pub enum CorpusError {
    /// The serialized resource is not valid structured data, or some entry
    /// in it does not match the expected chapter or verse shape. Fatal: the
    /// resource is fixed, so there is nothing to retry.
    Parse,
    /// A defensive guard: a chapter was asked of a corpus with no chapters.
    EmptyCorpus,
    /// A defensive guard: a verse was asked of a chapter with no verses.
    EmptyChapter,
}

/// A numbered unit of text within a chapter. A verse carries no
/// back-reference to its chapter: the chapter owns its verses exclusively,
/// and nothing here needs the reverse lookup.
#[derive(Debug, PartialEq, Eq)]
pub struct Verse {
    /// 1-based and chapter-local; whatever numbering the source document
    /// encodes is preserved, gaps included.
    pub number: usize,
    /// The verse text, in the corpus's language and script.
    pub text: String,
}

impl View for Verse {
    type V = VerseView;

    open spec fn view(&self) -> VerseView {
        VerseView { number: self.number as nat, text: self.text@ }
    }
}

impl Clone for Verse {
    /// The copy holds the same number and the same text.
    fn clone(&self) -> (r: Self)
        ensures
            r@ == self@,
    {
        Verse { number: self.number, text: self.text.clone() }
    }
}

/// A numbered division of the corpus holding an ordered, non-empty list of
/// verses.
#[derive(Debug, PartialEq, Eq)]
pub struct Chapter {
    /// 1-based position of the chapter in the corpus, 1 to
    /// [`CHAPTER_COUNT`].
    pub number: usize,
    verses: Vec<Verse>,
}

/// The value of a sequence of verses: each verse replaced by its view.
pub open spec fn verses_seq(vs: Seq<Verse>) -> Seq<VerseView> {
    vs.map_values(|v: Verse| v@)
}

impl View for Chapter {
    type V = ChapterView;

    closed spec fn view(&self) -> ChapterView {
        ChapterView { number: self.number as nat, verses: verses_seq(self.verses@) }
    }
}

impl Clone for Chapter {
    /// The copy holds the same number and the same verses, in order.
    fn clone(&self) -> (r: Self)
        ensures
            r@ == self@,
    {
        let mut verses: Vec<Verse> = Vec::new();
        let n = self.verses.len();
        for i in 0..n
            invariant
                n == self.verses@.len(),
                verses@.len() == i,
                forall|j: int| 0 <= j < i ==> verses@[j]@ == self.verses@[j]@,
        {
            verses.push(self.verses[i].clone());
        }
        let r = Chapter { number: self.number, verses };
        proof {
            assert(r@.verses =~= self@.verses);
        }
        r
    }
}

/// The whole collection of chapters for one language. Constructed once
/// from a serialized resource document; read-only afterwards.
#[derive(Debug, PartialEq, Eq)]
pub struct Quran {
    language: Language,
    chapters: Vec<Chapter>,
}

/// The value of a sequence of chapters: each chapter replaced by its view.
pub open spec fn chapters_seq(cs: Seq<Chapter>) -> Seq<ChapterView> {
    cs.map_values(|c: Chapter| c@)
}

impl View for Quran {
    type V = CorpusView;

    closed spec fn view(&self) -> CorpusView {
        CorpusView { language: self.language, chapters: chapters_seq(self.chapters@) }
    }
}

/// The verse a resource node stands for: exactly a `[number, text]` pair.
pub open spec fn verse_of_node(n: JsonNodeView) -> Option<VerseView> {
    match n {
        JsonNodeView::List(p) => {
            if p.len() == 2 {
                match (p[0], p[1]) {
                    (JsonNodeView::Num(number), JsonNodeView::Text(text)) => (
                        Some(VerseView { number, text })
                    ),
                    _ => None,
                }
            } else {
                None
            }
        },
        _ => None,
    }
}

/// The verse list a chapter entry stands for: a non-empty list of verse
/// pairs, in source order.
pub open spec fn verses_of_node(n: JsonNodeView) -> Option<Seq<VerseView>> {
    match n {
        JsonNodeView::List(vs) => {
            if vs.len() >= 1 && (forall|i: int| 0 <= i < vs.len() ==> verse_of_node(vs[i]) is Some) {
                Some(Seq::new(vs.len(), |i: int| verse_of_node(vs[i]).unwrap()))
            } else {
                None
            }
        },
        _ => None,
    }
}

/// The chapter sequence a whole document stands for: exactly
/// [`CHAPTER_COUNT`] chapter entries, numbered 1 upward in document order.
pub open spec fn chapters_of_doc(n: JsonNodeView) -> Option<Seq<ChapterView>> {
    match n {
        JsonNodeView::List(cs) => {
            if cs.len() == CHAPTER_COUNT
                && (forall|i: int| 0 <= i < cs.len() ==> verses_of_node(cs[i]) is Some) {
                Some(
                    Seq::new(
                        cs.len(),
                        |i: int| ChapterView {
                            number: (i + 1) as nat,
                            verses: verses_of_node(cs[i]).unwrap(),
                        },
                    ),
                )
            } else {
                None
            }
        },
        _ => None,
    }
}

/// The corpus a serialized document stands for, if it parses and matches
/// the expected shape; `None` otherwise.
pub open spec fn corpus_of_doc(s: Seq<char>) -> Option<Seq<ChapterView>> {
    match parsed_resource(s) {
        Some(t) => chapters_of_doc(t),
        None => None,
    }
}

/// Chapter sequences that construction can yield: the canonical count,
/// numbered 1 upward in order, every chapter non-empty.
pub open spec fn wf_chapters(cs: Seq<ChapterView>) -> bool {
    &&& cs.len() == CHAPTER_COUNT
    &&& forall|i: int| 0 <= i < cs.len() ==> (#[trigger] cs[i]).number == i + 1
    &&& forall|i: int| 0 <= i < cs.len() ==> (#[trigger] cs[i]).verses.len() >= 1
}

/// Some chapter in the sequence carries the number `n`.
pub open spec fn covers_number(cs: Seq<ChapterView>, n: int) -> bool {
    exists|i: int| 0 <= i < cs.len() && #[trigger] cs[i].number == n
}

/// Any corpus a document stands for is well formed: exactly
/// [`CHAPTER_COUNT`] chapters, numbered 1 upward in order — so every
/// number from 1 to the count appears exactly once, with no gaps — and
/// every chapter holds at least one verse.
pub proof fn lemma_corpus_well_formed(s: Seq<char>, cs: Seq<ChapterView>)
    requires
        corpus_of_doc(s) == Some(cs),
    ensures
        wf_chapters(cs),
        forall|i: int, j: int|
            0 <= i < cs.len() && 0 <= j < cs.len() && i != j
                ==> cs[i].number != cs[j].number,
        forall|n: int| 1 <= n <= CHAPTER_COUNT ==> #[trigger] covers_number(cs, n),
{
    let t = parsed_resource(s).unwrap();
    let entries = t->List_0;
    assert forall|i: int| 0 <= i < cs.len() implies #[trigger] cs[i].verses.len() >= 1 by {
        assert(verses_of_node(entries[i]) is Some);
        let vs = entries[i]->List_0;
        assert(cs[i].verses.len() == vs.len());
    }
    assert forall|n: int| 1 <= n <= CHAPTER_COUNT implies #[trigger] covers_number(cs, n) by {
        assert(cs[n - 1].number == n);
    }
}

/// Builds the verse a resource node stands for; `Parse` exactly where the
/// node is not a `[number, text]` pair.
fn verse_of(node: &JsonNode) -> (r: Result<Verse, CorpusError>)
    ensures
        (match r {
            Ok(v) => verse_of_node(node@) == Some(v@),
            Err(e) => e == CorpusError::Parse && verse_of_node(node@) is None,
        }),
{
    match node {
        JsonNode::List(pair) => {
            proof {
                lemma_nodes_view(pair@);
            }
            if pair.len() == 2 {
                match (&pair[0], &pair[1]) {
                    (JsonNode::Num(number), JsonNode::Text(text)) => (
                        Ok(Verse { number: *number, text: text.clone() })
                    ),
                    _ => Err(CorpusError::Parse),
                }
            } else {
                Err(CorpusError::Parse)
            }
        },
        _ => Err(CorpusError::Parse),
    }
}

/// Builds the verse list a chapter entry stands for; `Parse` exactly where
/// the entry is not a non-empty list of `[number, text]` pairs.
fn verses_of(node: &JsonNode) -> (r: Result<Vec<Verse>, CorpusError>)
    ensures
        (match r {
            Ok(vs) => verses_of_node(node@) == Some(verses_seq(vs@)),
            Err(e) => e == CorpusError::Parse && verses_of_node(node@) is None,
        }),
{
    match node {
        JsonNode::List(items) => {
            proof {
                lemma_nodes_view(items@);
            }
            let ghost entries = node@->List_0;
            if items.len() == 0 {
                return Err(CorpusError::Parse);
            }
            let mut out: Vec<Verse> = Vec::new();
            let n = items.len();
            for i in 0..n
                invariant
                    n == items@.len(),
                    entries == nodes_view(items@),
                    entries.len() == n,
                    forall|j: int| 0 <= j < n ==> entries[j] == node_view(items@[j]),
                    node@ == JsonNodeView::List(entries),
                    out@.len() == i,
                    forall|j: int| 0 <= j < i ==> verse_of_node(entries[j]) == Some(out@[j]@),
            {
                match verse_of(&items[i]) {
                    Ok(v) => out.push(v),
                    Err(e) => {
                        proof {
                            assert(verse_of_node(entries[i as int]) is None);
                            assert(verses_of_node(node@) is None);
                        }
                        return Err(e);
                    },
                }
            }
            proof {
                let vs = verses_of_node(node@).unwrap();
                assert(vs =~= verses_seq(out@));
            }
            Ok(out)
        },
        _ => Err(CorpusError::Parse),
    }
}

/// Builds the chapter list a whole document stands for, numbering the
/// chapters 1 upward in document order; `Parse` exactly where the document
/// is not a list of [`CHAPTER_COUNT`] well-shaped chapter entries.
pub fn chapters_from_doc(doc: &JsonNode) -> (r: Result<Vec<Chapter>, CorpusError>)
    ensures
        (match r {
            Ok(cs) => chapters_of_doc(doc@) == Some(chapters_seq(cs@)),
            Err(e) => e == CorpusError::Parse && chapters_of_doc(doc@) is None,
        }),
{
    match doc {
        JsonNode::List(items) => {
            proof {
                lemma_nodes_view(items@);
            }
            let ghost entries = doc@->List_0;
            if items.len() != CHAPTER_COUNT {
                return Err(CorpusError::Parse);
            }
            let mut out: Vec<Chapter> = Vec::new();
            let n = items.len();
            for i in 0..n
                invariant
                    n == items@.len(),
                    n == CHAPTER_COUNT,
                    entries == nodes_view(items@),
                    entries.len() == n,
                    forall|j: int| 0 <= j < n ==> entries[j] == node_view(items@[j]),
                    doc@ == JsonNodeView::List(entries),
                    out@.len() == i,
                    forall|j: int| 0 <= j < i ==> verses_of_node(entries[j]) is Some,
                    forall|j: int| 0 <= j < i
                        ==> #[trigger] out@[j]@ == (ChapterView {
                            number: (j + 1) as nat,
                            verses: verses_of_node(entries[j]).unwrap(),
                        }),
            {
                match verses_of(&items[i]) {
                    Ok(verses) => {
                        out.push(Chapter { number: i + 1, verses });
                    },
                    Err(e) => {
                        proof {
                            assert(verses_of_node(entries[i as int]) is None);
                            assert(chapters_of_doc(doc@) is None);
                        }
                        return Err(e);
                    },
                }
            }
            proof {
                let cs = chapters_of_doc(doc@).unwrap();
                assert(cs =~= chapters_seq(out@));
            }
            Ok(out)
        },
        _ => Err(CorpusError::Parse),
    }
}

/// Relies on `rand::Rng::gen_range` over `0..bound`: the result is drawn
/// uniformly and lies below `bound`. Only the bound is claimed here; which
/// index comes back may differ on every call.
#[verifier::external_body]
fn random_index(bound: usize) -> (r: usize)
    requires
        bound > 0,
    ensures
        r < bound,
{
    rand::thread_rng().gen_range(0..bound)
}

impl Quran {
    /// Builds the corpus for `language` from its serialized resource
    /// document. Returns `Parse` — and no partial corpus — exactly where
    /// the document does not parse or does not match the expected shape;
    /// otherwise the corpus holds precisely the chapters the document
    /// stands for, and is well formed.
    pub fn new(language: Language, document: &str) -> (r: Result<Quran, CorpusError>)
        ensures
            (match r {
                Ok(q) => {
                    &&& q@.language == language
                    &&& Some(q@.chapters) == corpus_of_doc(document@)
                    &&& wf_chapters(q@.chapters)
                },
                Err(e) => e == CorpusError::Parse && corpus_of_doc(document@) is None,
            }),
    {
        match parse_resource(document) {
            None => Err(CorpusError::Parse),
            Some(tree) => match chapters_from_doc(&tree) {
                Ok(chapters) => {
                    let q = Quran { language, chapters };
                    proof {
                        lemma_corpus_well_formed(document@, q@.chapters);
                    }
                    Ok(q)
                },
                Err(e) => Err(e),
            },
        }
    }

    /// The language this corpus was loaded in.
    pub fn language(&self) -> (r: Language)
        ensures
            r == self@.language,
    {
        self.language
    }

    /// Read-only projection of the chapter list, in chapter-number order.
    pub fn chapters(&self) -> (r: &Vec<Chapter>)
        ensures
            chapters_seq(r@) == self@.chapters,
    {
        &self.chapters
    }

    /// One chapter drawn uniformly at random from the chapter list,
    /// independently on each call. The result is always one of the corpus's
    /// own chapters; `EmptyCorpus` comes exactly in the defensive case of a
    /// corpus with no chapters at all.
    pub fn random_chapter(&self) -> (r: Result<Chapter, CorpusError>)
        ensures
            (match r {
                Ok(c) => exists|i: int|
                    0 <= i < self@.chapters.len() && c@ == #[trigger] self@.chapters[i],
                Err(e) => e == CorpusError::EmptyCorpus && self@.chapters.len() == 0,
            }),
    {
        if self.chapters.len() == 0 {
            Err(CorpusError::EmptyCorpus)
        } else {
            let i = random_index(self.chapters.len());
            let c = self.chapters[i].clone();
            proof {
                assert(c@ == self@.chapters[i as int]);
            }
            Ok(c)
        }
    }
}

impl Chapter {
    /// Read-only projection of the chapter's verses, in source order.
    pub fn verses(&self) -> (r: &Vec<Verse>)
        ensures
            verses_seq(r@) == self@.verses,
    {
        &self.verses
    }

    /// One verse drawn uniformly at random from this chapter's verse list,
    /// independently on each call. The result is always one of the
    /// chapter's own verses; `EmptyChapter` comes exactly in the defensive
    /// case of a chapter with no verses at all.
    pub fn random_verse(&self) -> (r: Result<Verse, CorpusError>)
        ensures
            (match r {
                Ok(v) => exists|i: int|
                    0 <= i < self@.verses.len() && v@ == #[trigger] self@.verses[i],
                Err(e) => e == CorpusError::EmptyChapter && self@.verses.len() == 0,
            }),
    {
        if self.verses.len() == 0 {
            Err(CorpusError::EmptyChapter)
        } else {
            let i = random_index(self.verses.len());
            let v = self.verses[i].clone();
            proof {
                assert(v@ == self@.verses[i as int]);
            }
            Ok(v)
        }
    }
}

/// Construction is deterministic: two corpora that stand for the same
/// document hold structurally identical chapter and verse sequences — the
/// same numbers, the same texts, in the same order.
pub proof fn lemma_reconstruction_identical(q1: Quran, q2: Quran, s: Seq<char>)
    requires
        Some(q1@.chapters) == corpus_of_doc(s),
        Some(q2@.chapters) == corpus_of_doc(s),
    ensures
        q1@.chapters == q2@.chapters,
{
}

} // verus!
