use sentiment_stream::http::{build_response, is_report_request, respond_not_found, respond_report};
use sentiment_stream::store::Store;
use sentiment_stream::www::{decimal_string, generate_www, sentiment_values};
use sentiment_stream::store::Tweet;

#[test]
fn report_requests_match_on_the_request_line() {
    assert!(is_report_request(b"GET / HTTP/1.1\r\nHost: localhost\r\n\r\n"));
    assert!(is_report_request(b"GET / HTTP/1.1"));
    assert!(!is_report_request(b"GET /favicon.ico HTTP/1.1\r\n"));
    assert!(!is_report_request(b"POST / HTTP/1.1\r\n"));
    assert!(!is_report_request(b"GET / HTTP/1."));
    assert!(!is_report_request(b""));
}

#[test]
fn responses_are_status_blank_line_body() {
    let r = build_response("HTTP/1.1 200 OK", "hello");
    assert_eq!(r, "HTTP/1.1 200 OK\r\n\r\nhello");
    let r = respond_report("<html></html>");
    assert_eq!(r, "HTTP/1.1 200 OK\r\n\r\n<html></html>");
    let r = respond_not_found("gone");
    assert_eq!(r, "HTTP/1.1 404 NOT FOUND\r\n\r\ngone");
}

#[test]
fn non_report_request_gets_fixed_not_found_and_no_snapshot() {
    // The dispatcher's decision on a request that does not start with the
    // report-request literal: the fixed not-found response, and the store
    // is left untouched because the snapshot branch is never taken.
    let store = Store::new();
    store.append(
        Tweet { created_at: 1, text: "x".to_string(), sentiment: 1 },
        1,
    );
    let buffer = b"PUT /anything HTTP/1.1\r\n\r\n";
    let response = if is_report_request(buffer) {
        let (_total, _items) = store.snapshot();
        unreachable!("a non-report request must not reach the store");
    } else {
        respond_not_found("404 page")
    };
    assert_eq!(response, "HTTP/1.1 404 NOT FOUND\r\n\r\n404 page");
    let (total, items) = store.snapshot();
    assert_eq!(total, 1);
    assert_eq!(items.len(), 1);
}

#[test]
fn decimal_rendering_is_exact() {
    assert_eq!(decimal_string(0), "0");
    assert_eq!(decimal_string(7), "7");
    assert_eq!(decimal_string(42), "42");
    assert_eq!(decimal_string(1234567890), "1234567890");
    assert_eq!(decimal_string(usize::MAX), format!("{}", usize::MAX));
}

#[test]
fn page_is_assembled_around_the_plot() {
    let page = generate_www(5, "<svg>plot</svg>", "<p>note</p>");
    let mut expected = String::new();
    expected.push_str("\n<!DOCTYPE html>\n<html lang=\"en\">\n<head>\n<meta charset=\"utf-8\">\n<title>Hello!</title>\n<script type=\"text/javascript\">\nfunction load() { setTimeout(\"window.open(self.location, '_self');\", 1500); }\n</script>\n</head>\n<body onload=\"load()\">\n");
    expected.push_str("Hi!  I'm written entirely in Rust.  I take Twitter data, do basic sentiment analysis on it, and then plot that data.  I've analyzed ");
    expected.push_str("5");
    expected.push_str(" tweets so far.</ br>");
    expected.push_str("<center><h3>Previous 3 Minutes of Twitter Sentiment Data</h3></center>");
    expected.push_str("<svg>plot</svg>");
    expected.push_str("<hr>");
    expected.push_str("<p>note</p>");
    expected.push_str("\n</body>\n</html>\n");
    assert_eq!(page, expected);
}

#[test]
fn page_reflects_the_total() {
    let page = generate_www(12345, "", "");
    assert!(page.contains("I've analyzed 12345 tweets so far."));
}

#[test]
fn scores_are_copied_in_window_order() {
    let items = vec![
        Tweet { created_at: 0, text: "a".to_string(), sentiment: 3 },
        Tweet { created_at: 1, text: "b".to_string(), sentiment: -2 },
        Tweet { created_at: 2, text: "c".to_string(), sentiment: 0 },
    ];
    assert_eq!(sentiment_values(&items), vec![3, -2, 0]);
    assert_eq!(sentiment_values(&Vec::new()), Vec::<i64>::new());
}
