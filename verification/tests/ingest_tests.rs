use sentiment_stream::ingest::{
    decode_tweet, ingest_event, ingest_record, is_english, parse_created_at, score_record,
    TweetRecord,
};
use sentiment_stream::store::{SentimentData, Store};

fn record(created_at: &str, text: &str, lang: Option<&str>) -> TweetRecord {
    TweetRecord {
        created_at: created_at.to_string(),
        text: text.to_string(),
        lang: lang.map(|l| l.to_string()),
    }
}

const EPOCH_PLUS_TEN: &str = "Thu Jan 01 00:00:10 +0000 1970";

#[test]
fn language_filter_takes_english_prefixes_only() {
    assert!(is_english(&Some("en".to_string())));
    assert!(is_english(&Some("en-gb".to_string())));
    assert!(!is_english(&Some("es".to_string())));
    assert!(!is_english(&Some("fr".to_string())));
    assert!(!is_english(&Some("e".to_string())));
    assert!(!is_english(&Some("".to_string())));
    assert!(!is_english(&None));
}

#[test]
fn creation_time_parses_to_epoch_seconds() {
    assert_eq!(parse_created_at(EPOCH_PLUS_TEN), Some(10));
    assert_eq!(parse_created_at("Sat Sep 28 03:36:52 +0000 2019"), Some(1569641812));
}

#[test]
fn unparseable_creation_time_is_discarded() {
    assert_eq!(parse_created_at("2019-09-28T03:36:52Z"), None);
    assert_eq!(parse_created_at(""), None);
    assert_eq!(parse_created_at("not a date"), None);
}

#[test]
fn scoring_keeps_text_and_signs_score() {
    let positive = score_record(record(EPOCH_PLUS_TEN, "I love this", Some("en"))).unwrap();
    assert_eq!(positive.created_at, 10);
    assert_eq!(positive.text, "I love this");
    assert_eq!(positive.sentiment, 3);

    let negative = score_record(record(EPOCH_PLUS_TEN, "I hate this", Some("en"))).unwrap();
    assert_eq!(negative.sentiment, -3);

    let neutral = score_record(record(EPOCH_PLUS_TEN, "the table", Some("en"))).unwrap();
    assert_eq!(neutral.sentiment, 0);
}

#[test]
fn non_english_records_are_discarded() {
    assert!(score_record(record(EPOCH_PLUS_TEN, "I love this", Some("de"))).is_none());
    assert!(score_record(record(EPOCH_PLUS_TEN, "I love this", None)).is_none());
}

#[test]
fn bad_timestamps_are_discarded() {
    assert!(score_record(record("yesterday", "I love this", Some("en"))).is_none());
}

#[test]
fn decode_reads_the_three_fields() {
    let raw = "{\"created_at\": \"Thu Jan 01 00:00:10 +0000 1970\", \"text\": \"hello\", \"lang\": \"en\"}";
    let rec = decode_tweet(raw).unwrap();
    assert_eq!(rec.created_at, EPOCH_PLUS_TEN);
    assert_eq!(rec.text, "hello");
    assert_eq!(rec.lang, Some("en".to_string()));
}

#[test]
fn decode_accepts_missing_or_null_language() {
    let raw = "{\"created_at\": \"x\", \"text\": \"hello\"}";
    let rec = decode_tweet(raw).unwrap();
    assert_eq!(rec.lang, None);
    let raw = "{\"created_at\": \"x\", \"text\": \"hello\", \"lang\": null}";
    let rec = decode_tweet(raw).unwrap();
    assert_eq!(rec.lang, None);
}

#[test]
fn over_deep_events_are_discarded_not_fatal() {
    // The parser recurses per nesting level; the pipeline must shed such
    // input as noise instead of letting it exhaust the stack.
    let deep = "[".repeat(100_000);
    assert!(decode_tweet(&deep).is_none());
    let store = Store::new();
    assert!(!ingest_event(&store, &deep));
    let (total, items) = store.snapshot();
    assert_eq!(total, 0);
    assert_eq!(items.len(), 0);
}

#[test]
fn nesting_within_the_bound_reaches_the_parser() {
    // A hundred levels is fine depth-wise; the document is still no tweet
    // object, so it is discarded by the decoder itself.
    let mut nested = String::new();
    for _ in 0..100 {
        nested.push('[');
    }
    nested.push('1');
    for _ in 0..100 {
        nested.push(']');
    }
    assert!(decode_tweet(&nested).is_none());
    // Brackets inside string values are not nesting and do not count
    // against the guard; the record decodes as before.
    let raw = "{\"created_at\": \"x\", \"text\": \"[[brackets]] {inside} text\", \"lang\": \"en\"}";
    let rec = decode_tweet(raw).unwrap();
    assert_eq!(rec.text, "[[brackets]] {inside} text");
}

#[test]
fn string_masked_closes_do_not_fool_the_guard() {
    // Each repetition opens one real object while hiding a close bracket
    // inside a string, so a scan that counted bytes blindly would sit at
    // depth one forever; the real nesting grows past any stack budget and
    // the event must be shed before the parser recurses after it.
    let mut deep = String::new();
    for _ in 0..50_000 {
        deep.push_str("{\"x\":\"}\",\"y\":");
    }
    assert!(decode_tweet(&deep).is_none());
    let store = Store::new();
    assert!(!ingest_event(&store, &deep));
    let (total, items) = store.snapshot();
    assert_eq!(total, 0);
    assert_eq!(items.len(), 0);
}

#[test]
fn brackets_inside_strings_do_not_count_against_the_guard() {
    // A shallow, well-formed event whose text holds far more open
    // brackets than the depth bound still decodes: only real nesting
    // counts.
    let mut text = String::new();
    for _ in 0..1000 {
        text.push('[');
    }
    let raw = format!(
        "{{\"created_at\": \"x\", \"text\": \"{}\", \"lang\": \"en\"}}",
        text
    );
    let rec = decode_tweet(&raw).unwrap();
    assert_eq!(rec.text, text);
    // An escaped quote inside the text neither ends the string early nor
    // lets the brackets behind it count.
    let raw = "{\"created_at\": \"x\", \"text\": \"quote \\\" [ brace {\", \"lang\": \"en\"}";
    let rec = decode_tweet(raw).unwrap();
    assert_eq!(rec.text, "quote \" [ brace {");
}

#[test]
fn decode_discards_malformed_events() {
    assert!(decode_tweet("not json at all").is_none());
    assert!(decode_tweet("{\"text\": \"hello\"}").is_none());
    assert!(decode_tweet("{\"created_at\": \"x\"}").is_none());
    assert!(decode_tweet("{\"created_at\": 5, \"text\": \"hello\"}").is_none());
    assert!(decode_tweet("[1, 2, 3]").is_none());
}

#[test]
fn accepted_record_lands_in_the_window() {
    let mut data = SentimentData::with_retention(1000);
    let accepted = ingest_record(&mut data, record(EPOCH_PLUS_TEN, "I love this", Some("en")), 20);
    assert!(accepted);
    let (total, items) = data.snapshot();
    assert_eq!(total, 1);
    assert_eq!(items.len(), 1);
    assert_eq!(items[0].created_at, 10);
    assert_eq!(items[0].text, "I love this");
    assert_eq!(items[0].sentiment, 3);
}

#[test]
fn discarded_record_leaves_the_window_untouched() {
    let mut data = SentimentData::with_retention(1000);
    let accepted = ingest_record(&mut data, record(EPOCH_PLUS_TEN, "je adore", Some("fr")), 20);
    assert!(!accepted);
    let (total, items) = data.snapshot();
    assert_eq!(total, 0);
    assert_eq!(items.len(), 0);
}

#[test]
fn raw_event_flows_into_shared_store() {
    let store = Store::new();
    let raw = "{\"created_at\": \"Thu Jan 01 00:00:10 +0000 1970\", \"text\": \"I love this\", \"lang\": \"en\"}";
    assert!(ingest_event(&store, raw));
    assert!(!ingest_event(&store, "noise"));
    let (total, items) = store.snapshot();
    assert_eq!(total, 1);
    assert_eq!(items.len(), 1);
    assert_eq!(items[0].sentiment, 3);
}
