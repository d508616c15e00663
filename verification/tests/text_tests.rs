use speedreader::text::{contains_period, join_words, text_to_sv, white};

fn words(items: &[&str]) -> Vec<String> {
    items.iter().map(|w| w.to_string()).collect()
}

#[test]
fn tokenize_drops_empty_segments() {
    assert_eq!(text_to_sv("the quick  brown"), words(&["the", "quick", "brown"]));
}

#[test]
fn tokenize_empty_text() {
    assert_eq!(text_to_sv(""), Vec::<String>::new());
}

#[test]
fn tokenize_only_spaces() {
    assert_eq!(text_to_sv("   "), Vec::<String>::new());
}

#[test]
fn tokenize_trims_other_whitespace() {
    assert_eq!(text_to_sv("a \tb\n c"), words(&["a", "b", "c"]));
}

#[test]
fn tokenize_keeps_inner_punctuation() {
    assert_eq!(text_to_sv("one. two,three"), words(&["one.", "two,three"]));
}

#[test]
fn tokenize_drops_whitespace_only_segments() {
    // A segment that is all white-space trims down to nothing and is
    // dropped like an empty one, so no word is ever empty.
    assert_eq!(text_to_sv("a \t b"), words(&["a", "b"]));
    assert_eq!(text_to_sv("\t"), Vec::<String>::new());
}

#[test]
fn join_words_single_spaces() {
    assert_eq!(join_words(&words(&["one", "two.", "three"])), "one two. three");
}

#[test]
fn join_words_empty_and_single() {
    assert_eq!(join_words(&Vec::new()), "");
    assert_eq!(join_words(&words(&["solo"])), "solo");
}

#[test]
fn tokenize_join_round_trip() {
    let ws = text_to_sv("one two. three four");
    assert_eq!(text_to_sv(&join_words(&ws)), ws);
}

#[test]
fn period_detection_is_contains_not_ends_with() {
    assert!(contains_period("done."));
    assert!(contains_period("mr.smith"));
    assert!(!contains_period("plain"));
    assert!(!contains_period(""));
}

#[test]
fn white_space_classification() {
    assert!(white(' '));
    assert!(white('\t'));
    assert!(white('\u{3000}'));
    assert!(!white('a'));
    assert!(!white('.'));
}
