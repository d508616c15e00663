use speedreader::settings::Settings;
use speedreader::text::text_to_sv;

#[test]
fn from_record_retokenizes_and_resets_index() {
    let s = Settings::from_record(300, true, "a  b c");
    assert_eq!(s.wpm, 300);
    assert!(s.should_loop);
    assert_eq!(s.word_index, 0);
    assert_eq!(s.words, text_to_sv("a b c"));
}

#[test]
fn to_record_joins_with_single_spaces() {
    let s = Settings {
        wpm: 250,
        word_index: 3,
        words: text_to_sv("one two. three four"),
        should_loop: true,
    };
    let rec = s.to_record();
    assert_eq!(rec.0, 250);
    assert!(rec.1);
    assert_eq!(rec.2, "one two. three four");
}

#[test]
fn record_round_trip_through_json() {
    let s = Settings {
        wpm: 250,
        word_index: 3,
        words: text_to_sv("one two. three four"),
        should_loop: true,
    };
    let rec = s.to_record();

    let mut map = serde_json::Map::new();
    map.insert("wpm".to_string(), serde_json::Value::from(rec.0));
    map.insert("should_loop".to_string(), serde_json::Value::Bool(rec.1));
    map.insert("words".to_string(), serde_json::Value::String(rec.2));
    let stored = serde_json::Value::Object(map).to_string();

    let parsed: serde_json::Value = serde_json::from_str(&stored).unwrap();
    let wpm = parsed.get("wpm").unwrap().as_u64().unwrap() as u32;
    let should_loop = parsed.get("should_loop").unwrap().as_bool().unwrap();
    let words = parsed.get("words").unwrap().as_str().unwrap();

    let restored = Settings::from_record(wpm, should_loop, words);
    assert_eq!(restored.wpm, s.wpm);
    assert_eq!(restored.should_loop, s.should_loop);
    assert_eq!(restored.words, s.words);
    // the pre-save index does not survive: it always restarts at zero
    assert_eq!(restored.word_index, 0);
}

#[test]
fn clone_agrees_with_original() {
    let s = Settings {
        wpm: 120,
        word_index: 1,
        words: text_to_sv("a b"),
        should_loop: false,
    };
    let c = s.clone();
    assert_eq!(c.wpm, s.wpm);
    assert_eq!(c.word_index, s.word_index);
    assert_eq!(c.words, s.words);
    assert_eq!(c.should_loop, s.should_loop);
}
