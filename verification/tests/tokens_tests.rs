use sentiment_stream::tokens::load_twitter_tokens;

const GOOD_CONFIG: &str = "consumer_key: ck\nconsumer_secret: cs\naccess_key: ak\naccess_secret: as\n";

#[test]
fn credentials_are_read_from_the_config_text() {
    let tokens = load_twitter_tokens(GOOD_CONFIG).unwrap();
    assert_eq!(tokens.consumer_key, "ck");
    assert_eq!(tokens.consumer_secret, "cs");
    assert_eq!(tokens.access_key, "ak");
    assert_eq!(tokens.access_secret, "as");
}

#[test]
fn missing_key_fails_the_load() {
    let partial = "consumer_key: ck\nconsumer_secret: cs\naccess_key: ak\n";
    assert!(load_twitter_tokens(partial).is_none());
}

#[test]
fn non_hash_document_fails_the_load() {
    assert!(load_twitter_tokens("- just\n- a\n- list\n").is_none());
    assert!(load_twitter_tokens("").is_none());
}
