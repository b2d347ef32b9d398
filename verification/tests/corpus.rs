use read_quran::{Language, Quran, CHAPTER_COUNT};

/// A well-formed document: `CHAPTER_COUNT` chapters, chapter `k` (1-based)
/// holding `k % 3 + 1` verses, each verse `[number, text]`.
fn full_document(tag: &str) -> String {
    let mut doc = String::from("[");
    for k in 1..=CHAPTER_COUNT {
        if k > 1 {
            doc.push(',');
        }
        doc.push('[');
        let verses = k % 3 + 1;
        for v in 1..=verses {
            if v > 1 {
                doc.push(',');
            }
            doc.push_str(&format!("[{},\"{} verse {}.{}\"]", v, tag, k, v));
        }
        doc.push(']');
    }
    doc.push(']');
    doc
}

fn build(language: Language) -> Quran {
    let tag = if language.is_arabic() { "ar" } else { "en" };
    Quran::new(language, &full_document(tag)).expect("well-formed document must construct")
}

#[test]
fn construct_has_canonical_chapter_count() {
    assert_eq!(build(Language::Arabic).chapters().len(), 114);
    assert_eq!(build(Language::English).chapters().len(), 114);
}

#[test]
fn every_chapter_is_non_empty() {
    let quran = build(Language::English);
    for chapter in quran.chapters() {
        assert!(chapter.verses().len() >= 1);
    }
}

#[test]
fn chapter_numbers_span_one_to_count_without_gaps() {
    let quran = build(Language::Arabic);
    let mut seen = vec![false; CHAPTER_COUNT + 1];
    for chapter in quran.chapters() {
        assert!(1 <= chapter.number && chapter.number <= CHAPTER_COUNT);
        assert!(!seen[chapter.number], "chapter number repeated");
        seen[chapter.number] = true;
    }
    for number in 1..=CHAPTER_COUNT {
        assert!(seen[number], "chapter number missing");
    }
}

#[test]
fn chapter_numbers_follow_document_order() {
    let quran = build(Language::English);
    for (i, chapter) in quran.chapters().iter().enumerate() {
        assert_eq!(chapter.number, i + 1);
    }
}

#[test]
fn first_and_last_chapter_numbers() {
    let arabic = build(Language::Arabic);
    assert_eq!(arabic.chapters()[0].number, 1);
    let english = build(Language::English);
    assert_eq!(english.chapters()[113].number, 114);
}

#[test]
fn language_is_recorded() {
    assert_eq!(build(Language::Arabic).language(), Language::Arabic);
    assert_eq!(build(Language::English).language(), Language::English);
}

#[test]
fn verse_numbers_and_texts_are_preserved_in_order() {
    // Verse numbering from the source is kept as-is: gaps and all.
    let doc = format!(
        "[[[1,\"a\"],[5,\"b\"],[7,\"c\"]]{}]",
        ",[[1,\"x\"]]".repeat(113)
    );
    let quran = Quran::new(Language::English, &doc).expect("document must construct");
    let first = &quran.chapters()[0];
    let numbers: Vec<usize> = first.verses().iter().map(|v| v.number).collect();
    let texts: Vec<String> = first.verses().iter().map(|v| v.text.clone()).collect();
    assert_eq!(numbers, vec![1, 5, 7]);
    assert_eq!(texts, vec!["a".to_string(), "b".to_string(), "c".to_string()]);
}

#[test]
fn reconstruction_yields_identical_structure() {
    let one = build(Language::Arabic);
    let two = build(Language::Arabic);
    assert_eq!(one.chapters().len(), two.chapters().len());
    for (c1, c2) in one.chapters().iter().zip(two.chapters().iter()) {
        assert_eq!(c1.number, c2.number);
        assert_eq!(c1.verses().len(), c2.verses().len());
        for (v1, v2) in c1.verses().iter().zip(c2.verses().iter()) {
            assert_eq!(v1.number, v2.number);
            assert_eq!(v1.text, v2.text);
        }
    }
    assert_eq!(one, two);
}

#[test]
fn random_chapter_returns_only_corpus_chapters() {
    let quran = build(Language::English);
    for _ in 0..500 {
        let picked = quran.random_chapter().expect("corpus has chapters");
        let original = &quran.chapters()[picked.number - 1];
        assert_eq!(&picked, original);
    }
}

#[test]
fn random_chapter_is_approximately_uniform() {
    // 20000 uniform draws over 114 chapters expect about 175 per chapter,
    // with a standard deviation near 13. The bounds below sit more than
    // eight standard deviations out, so crossing them is far below
    // anything observable; a draw that favours or starves a chapter fails.
    let quran = build(Language::Arabic);
    let mut counts = vec![0usize; CHAPTER_COUNT + 1];
    for _ in 0..20000 {
        let picked = quran.random_chapter().expect("corpus has chapters");
        counts[picked.number] += 1;
    }
    for number in 1..=CHAPTER_COUNT {
        assert!(counts[number] >= 40, "a uniform draw starved a chapter");
        assert!(counts[number] <= 700, "a uniform draw favoured a chapter");
    }
}

#[test]
fn random_verse_returns_only_chapter_verses() {
    let quran = build(Language::English);
    let chapter = &quran.chapters()[2];
    for _ in 0..200 {
        let picked = chapter.random_verse().expect("chapter has verses");
        assert!(chapter
            .verses()
            .iter()
            .any(|v| v.number == picked.number && v.text == picked.text));
    }
}

#[test]
fn random_verse_on_single_verse_chapter_always_returns_it() {
    let doc = format!("[[[1,\"X\"]]{}]", ",[[1,\"y\"]]".repeat(113));
    let quran = Quran::new(Language::English, &doc).expect("document must construct");
    let chapter = &quran.chapters()[0];
    assert_eq!(chapter.verses().len(), 1);
    for _ in 0..50 {
        let picked = chapter.random_verse().expect("chapter has a verse");
        assert_eq!(picked.number, 1);
        assert_eq!(picked.text, "X");
    }
}
