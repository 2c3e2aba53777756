use vstd::prelude::*;
use vstd::string::StrSliceExecFns;
use vstd::string::StringSliceAdditionalSpecFns;
use crate::store::{append_spec, SentimentData, Store, Tweet, TweetView};

verus! {

/// The minimal structural record the pipeline reads out of one raw stream
/// event: creation time as the stream writes it, the text, and the
/// optional language tag.
pub struct TweetRecord {
    pub created_at: String,
    pub text: String,
    pub lang: Option<String>,
}

/// Mathematical image of a [`TweetRecord`].
pub ghost struct TweetRecordView {
    pub created_at: Seq<char>,
    pub text: Seq<char>,
    pub lang: Option<Seq<char>>,
}

impl View for TweetRecord {
    type V = TweetRecordView;

    open spec fn view(&self) -> TweetRecordView {
        TweetRecordView {
            created_at: self.created_at@,
            text: self.text@,
            lang: match self.lang {
                Some(l) => Some(l@),
                None => None,
            },
        }
    }
}

/// Limit on bracket nesting accepted from the stream.  The JSON parser
/// recurses once per nesting level, so an unbounded depth could exhaust
/// the stack; anything deeper is discarded as malformed noise before the
/// parser ever sees it.
pub const MAX_JSON_NESTING: usize = 512;

/// State of the bracket scan after some prefix of the text: the running
/// depth of brackets standing outside string literals, and whether the
/// scan is inside a string literal, just behind a backslash escape.
pub ghost struct ScanState {
    pub depth: int,
    pub in_string: bool,
    pub escaped: bool,
}

/// The scan before any byte.
pub open spec fn scan_start() -> ScanState {
    ScanState { depth: 0, in_string: false, escaped: false }
}

/// One byte's effect on the scan.  Only brackets outside string literals
/// count: a string runs from an unescaped quote (byte 34) to the next
/// unescaped quote, a backslash (92) escapes the byte after it, and
/// outside strings `[` and `{` (91, 123) open while `]` and `}` (93, 125)
/// close.  A close hidden inside a string must not cancel a real open —
/// the parser's recursion follows real nesting only.
pub open spec fn scan_step(st: ScanState, b: u8) -> ScanState {
    if st.in_string {
        if st.escaped {
            ScanState { escaped: false, ..st }
        } else if b == 92 {
            ScanState { escaped: true, ..st }
        } else if b == 34 {
            ScanState { in_string: false, ..st }
        } else {
            st
        }
    } else {
        if b == 34 {
            ScanState { in_string: true, ..st }
        } else if b == 91 || b == 123 {
            ScanState { depth: st.depth + 1, ..st }
        } else if b == 93 || b == 125 {
            ScanState { depth: st.depth - 1, ..st }
        } else {
            st
        }
    }
}

/// The scan state after the first `i` bytes.
pub open spec fn scan_at(s: Seq<u8>, i: int) -> ScanState
    decreases i,
{
    if i <= 0 {
        scan_start()
    } else {
        scan_step(scan_at(s, i - 1), s[i - 1])
    }
}

/// No prefix of the text nests brackets outside string literals deeper
/// than `bound`.
pub open spec fn nesting_bounded(s: Seq<u8>, bound: int) -> bool {
    forall|i: int| 0 <= i <= s.len() ==> #[trigger] scan_at(s, i).depth <= bound
}

/// The pre-scan guarding the JSON parser: whether every prefix of `raw`
/// keeps its real bracket depth — brackets inside string literals do not
/// count — within `bound`.
fn nesting_is_bounded(raw: &str, bound: usize) -> (r: bool)
    ensures
        r == nesting_bounded(raw.spec_bytes(), bound as int),
{
    let bytes: &[u8] = raw.as_bytes();
    let n: usize = bytes.len();
    let mut depth: i128 = 0;
    let mut in_string: bool = false;
    let mut escaped: bool = false;
    let mut i: usize = 0;
    while i < n
        invariant
            i <= n,
            n == bytes@.len(),
            bytes@ == raw.spec_bytes(),
            scan_at(bytes@, i as int) == (ScanState {
                depth: depth as int,
                in_string: in_string,
                escaped: escaped,
            }),
            -(i as int) <= depth <= i as int,
            forall|k: int| 0 <= k <= i ==> #[trigger] scan_at(bytes@, k).depth <= bound as int,
        decreases n - i,
    {
        let b: u8 = bytes[i];
        if in_string {
            if escaped {
                escaped = false;
            } else if b == 92 {
                escaped = true;
            } else if b == 34 {
                in_string = false;
            }
        } else {
            if b == 34 {
                in_string = true;
            } else if b == 91 || b == 123 {
                depth = depth + 1;
            } else if b == 93 || b == 125 {
                depth = depth - 1;
            }
        }
        i = i + 1;
        if depth > bound as i128 {
            proof {
                assert(scan_at(bytes@, i as int).depth > bound as int);
            }
            return false;
        }
    }
    true
}

/// What the JSON decode of one raw event yields: the three fields of the
/// record when the text parses as an object with string `created_at` and
/// `text` (a missing or non-string `lang` leaves the tag absent), nothing
/// otherwise — a function of the text alone.
pub uninterp spec fn decoded_of(raw: Seq<char>) -> Option<TweetRecordView>;

/// Relies on rustc_serialize::json: `Json::from_str` (deterministic
/// parse), `Json::find` (object key lookup, `None` otherwise) and
/// `Json::as_string` (the text of a JSON string, `None` otherwise, in
/// particular for `null`).  The parser recurses once per nesting level,
/// so the caller must have bounded the text's depth first.
#[verifier::external_body]
fn decode_tweet_fields(raw: &str) -> (r: Option<TweetRecord>)
    requires
        nesting_bounded(raw.spec_bytes(), MAX_JSON_NESTING as int),
    ensures
        match r {
            Some(rec) => decoded_of(raw@) == Some(rec@),
            None => decoded_of(raw@) is None,
        },
{
    let doc = rustc_serialize::json::Json::from_str(raw).ok()?;
    let created_at = doc.find("created_at")?.as_string()?.to_owned();
    let text = doc.find("text")?.as_string()?.to_owned();
    let lang = doc.find("lang").and_then(|v| v.as_string()).map(|s| s.to_owned());
    Some(TweetRecord { created_at, text, lang })
}

/// Decodes one raw stream event into a [`TweetRecord`].  An event that is
/// no JSON object, or lacks a string `created_at` or `text`, is malformed
/// and yields `None`, as does one nested deeper than the parser can
/// safely take; a missing or null `lang` leaves the tag absent.
pub fn decode_tweet(raw: &str) -> (r: Option<TweetRecord>)
    ensures
        nesting_bounded(raw.spec_bytes(), MAX_JSON_NESTING as int) ==> (match r {
            Some(rec) => decoded_of(raw@) == Some(rec@),
            None => decoded_of(raw@) is None,
        }),
        !nesting_bounded(raw.spec_bytes(), MAX_JSON_NESTING as int) ==> r is None,
{
    if !nesting_is_bounded(raw, MAX_JSON_NESTING) {
        return None;
    }
    decode_tweet_fields(raw)
}

/// The language filter: scoring is defined only for English, so an event
/// qualifies exactly when its tag is present and begins with "en".
pub open spec fn english_tag(lang: Option<Seq<char>>) -> bool {
    match lang {
        Some(l) => l.len() >= 2 && l[0] == 'e' && l[1] == 'n',
        None => false,
    }
}

/// Whether the record's language tag passes the filter.
pub fn is_english(lang: &Option<String>) -> (r: bool)
    ensures
        r == english_tag(match *lang {
            Some(l) => Some(l@),
            None => None::<Seq<char>>,
        }),
{
    match lang {
        None => false,
        Some(l) => {
            let s: &str = l.as_str();
            if s.unicode_len() < 2 {
                false
            } else {
                s.get_char(0) == 'e' && s.get_char(1) == 'n'
            }
        },
    }
}

/// What `chrono`'s `DateTime::parse_from_str`, followed by `timestamp`,
/// returns: the instant `s` denotes under format `fmt`, in seconds since
/// the epoch, or nothing where `s` does not match `fmt`.
pub uninterp spec fn parsed_timestamp(s: Seq<char>, fmt: Seq<char>) -> Option<i64>;

/// Relies on chrono::DateTime::parse_from_str and
/// chrono::DateTime::timestamp: the parse depends on the string and the
/// format alone, and neither call panics.
#[verifier::external_body]
fn parse_datetime_seconds(s: &str, fmt: &str) -> (r: Option<i64>)
    ensures
        r == parsed_timestamp(s@, fmt@),
{
    chrono::DateTime::parse_from_str(s, fmt).ok().map(|d| d.timestamp())
}

/// The format the external stream writes creation times in.
pub open spec fn created_at_format() -> Seq<char> {
    "%a %b %d %H:%M:%S %z %Y"@
}

/// Seconds since the epoch of a creation time as the stream writes it, or
/// nothing where the string does not match the stream's format — a
/// discard, not an error.
pub fn parse_created_at(s: &str) -> (r: Option<i64>)
    ensures
        r == parsed_timestamp(s@, created_at_format()),
{
    parse_datetime_seconds(s, "%a %b %d %H:%M:%S %z %Y")
}

/// What the external scorer returns for a text: an opaque function of the
/// characters alone.
pub uninterp spec fn score_of(text: Seq<char>) -> int;

/// Relies on sentiment::analyze: the score is a sum of fixed integer word
/// valences, a function of the text alone, returned here as the integer it
/// denotes.
#[verifier::external_body]
fn score_text(text: &str) -> (r: i64)
    ensures
        r as int == score_of(text@),
{
    sentiment::analyze(text.to_owned()).score as i64
}

/// What the pipeline turns one decoded record into: the scored item, or
/// nothing when the record is non-English or its creation time does not
/// parse.
pub open spec fn scored_item_of(rec: TweetRecordView) -> Option<TweetView> {
    if !english_tag(rec.lang) {
        None
    } else {
        match parsed_timestamp(rec.created_at, created_at_format()) {
            None => None,
            Some(ts) => Some(
                TweetView { created_at: ts as int, text: rec.text, sentiment: score_of(rec.text) },
            ),
        }
    }
}

/// Filters and scores one decoded record: exactly the non-English records
/// and those whose creation time does not parse are discarded; everything
/// else becomes a scored item carrying the record's text.
pub fn score_record(rec: TweetRecord) -> (r: Option<Tweet>)
    ensures
        match r {
            Some(t) => scored_item_of(rec@) == Some(t@),
            None => scored_item_of(rec@) is None,
        },
{
    if !is_english(&rec.lang) {
        return None;
    }
    match parse_created_at(rec.created_at.as_str()) {
        None => None,
        Some(ts) => {
            let sentiment = score_text(rec.text.as_str());
            Some(Tweet { created_at: ts, text: rec.text, sentiment })
        },
    }
}

/// Runs the decision half of the pipeline on one decoded record: filter,
/// score, and append to the store at time `now`.  Returns whether an item
/// was accepted; a discarded record leaves the store untouched and needs
/// no room in the counter.
pub fn ingest_record(data: &mut SentimentData, rec: TweetRecord, now: i64) -> (accepted: bool)
    requires
        scored_item_of(rec@) is Some ==> old(data)@.total < usize::MAX,
    ensures
        accepted == (scored_item_of(rec@) is Some),
        match scored_item_of(rec@) {
            Some(t) => final(data)@ == append_spec(old(data)@, t, now as int),
            None => final(data)@ == old(data)@,
        },
{
    match score_record(rec) {
        None => false,
        Some(t) => {
            data.append(t, now);
            true
        },
    }
}

/// Relies on chrono::Utc::now, read as seconds since the epoch: nothing
/// can be promised of the clock.  (It aborts if the system clock is set
/// before the epoch — machine pathology no precondition could speak of.)
#[verifier::external_body]
fn now_seconds() -> (r: i64) {
    chrono::Utc::now().timestamp()
}

/// Whether the pipeline accepts one raw event: it stays within the
/// parser's depth guard, decodes, passes the language filter, and its
/// creation time parses.
pub open spec fn event_accepted(raw: &str) -> bool {
    &&& nesting_bounded(raw.spec_bytes(), MAX_JSON_NESTING as int)
    &&& match decoded_of(raw@) {
        Some(rec) => scored_item_of(rec) is Some,
        None => false,
    }
}

/// Handles one raw event from the external stream: decode, filter, score,
/// and append to the shared store at the current time.  Exactly the
/// accepted events reach the store; a malformed or over-deep document, a
/// non-English record and an unparseable creation time are all silently
/// discarded, leaving the store untouched — expected noise, not errors.
pub fn ingest_event(store: &Store, raw: &str) -> (accepted: bool)
    ensures
        accepted == event_accepted(raw),
{
    match decode_tweet(raw) {
        None => false,
        Some(rec) => match score_record(rec) {
            None => false,
            Some(t) => {
                store.append(t, now_seconds());
                true
            },
        },
    }
}

} // verus!
