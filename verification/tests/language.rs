use read_quran::Language;

#[test]
fn arabic_predicates() {
    let language = Language::Arabic;
    assert!(language.is_arabic());
    assert!(!language.is_english());
}

#[test]
fn english_predicates() {
    let language = Language::English;
    assert!(language.is_english());
    assert!(!language.is_arabic());
}
