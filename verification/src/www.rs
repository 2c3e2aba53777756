use vstd::prelude::*;
use vstd::string::StringExecFns;
use crate::store::{Tweet, TWEET_RETAINMENT_SECONDS};

verus! {

/// The character a decimal digit prints as.
pub open spec fn digit_char(d: nat) -> char {
    if d == 0 {
        '0'
    } else if d == 1 {
        '1'
    } else if d == 2 {
        '2'
    } else if d == 3 {
        '3'
    } else if d == 4 {
        '4'
    } else if d == 5 {
        '5'
    } else if d == 6 {
        '6'
    } else if d == 7 {
        '7'
    } else if d == 8 {
        '8'
    } else {
        '9'
    }
}

/// The decimal numeral of `n`, most significant digit first, without
/// leading zeroes (`0` prints as one digit).
pub open spec fn decimal_digits(n: nat) -> Seq<char>
    decreases n,
{
    if n < 10 {
        seq![digit_char(n)]
    } else {
        decimal_digits(n / 10).push(digit_char(n % 10))
    }
}

/// The one-character string of a decimal digit.
fn digit_str(d: usize) -> (r: &'static str)
    requires
        d < 10,
    ensures
        r@ =~= seq![digit_char(d as nat)],
{
    proof {
        reveal_strlit("0");
        reveal_strlit("1");
        reveal_strlit("2");
        reveal_strlit("3");
        reveal_strlit("4");
        reveal_strlit("5");
        reveal_strlit("6");
        reveal_strlit("7");
        reveal_strlit("8");
        reveal_strlit("9");
    }
    if d == 0 {
        "0"
    } else if d == 1 {
        "1"
    } else if d == 2 {
        "2"
    } else if d == 3 {
        "3"
    } else if d == 4 {
        "4"
    } else if d == 5 {
        "5"
    } else if d == 6 {
        "6"
    } else if d == 7 {
        "7"
    } else if d == 8 {
        "8"
    } else {
        "9"
    }
}

/// Writes `n` in decimal.
pub fn decimal_string(n: usize) -> (r: String)
    ensures
        r@ == decimal_digits(n as nat),
    decreases n,
{
    if n < 10 {
        digit_str(n).to_owned()
    } else {
        let mut prefix = decimal_string(n / 10);
        prefix.append(digit_str(n % 10));
        proof {
            assert(prefix@ =~= decimal_digits(n as nat));
        }
        prefix
    }
}

/// The scores of a snapshot's items, in window order: the column the
/// external plotter bins into a histogram.
pub fn sentiment_values(items: &Vec<Tweet>) -> (r: Vec<i64>)
    ensures
        r@.len() == items.deep_view().len(),
        forall|i: int| 0 <= i < r@.len() ==> r@[i] as int == items.deep_view()[i].sentiment,
{
    let mut r: Vec<i64> = Vec::new();
    let n: usize = items.len();
    let mut i: usize = 0;
    while i < n
        invariant
            i <= n,
            n == items@.len(),
            r@.len() == i,
            forall|k: int| 0 <= k < i ==> r@[k] as int == items.deep_view()[k].sentiment,
        decreases n - i,
    {
        r.push(items[i].sentiment);
        i = i + 1;
    }
    r
}

/// Opening of the report page, up to where the running commentary starts.
pub open spec fn html_head() -> Seq<char> {
    "\n<!DOCTYPE html>\n<html lang=\"en\">\n<head>\n<meta charset=\"utf-8\">\n<title>Hello!</title>\n<script type=\"text/javascript\">\nfunction load() { setTimeout(\"window.open(self.location, '_self');\", 1500); }\n</script>\n</head>\n<body onload=\"load()\">\n"@
}

/// Close of the report page.
pub open spec fn html_foot() -> Seq<char> {
    "\n</body>\n</html>\n"@
}

/// The report page: the page frame around the total count, the retention
/// window in minutes, the rendered plot handed in by the external
/// renderer, and the caller's own closing note.
pub open spec fn page_of(total: nat, plot: Seq<char>, rendered_in: Seq<char>) -> Seq<char> {
    html_head()
        + "Hi!  I'm written entirely in Rust.  I take Twitter data, do basic sentiment analysis on it, and then plot that data.  I've analyzed "@
        + decimal_digits(total) + " tweets so far.</ br>"@ + "<center><h3>Previous "@
        + decimal_digits(((TWEET_RETAINMENT_SECONDS as int) / 60) as nat)
        + " Minutes of Twitter Sentiment Data</h3></center>"@ + plot + "<hr>"@ + rendered_in
        + html_foot()
}

/// Assembles the report page around an already rendered plot.  The plot
/// itself and the timing note come from the caller: rendering is the
/// external plotter's work, and timing is the clock's.
pub fn generate_www(total_tweets: usize, plot: &str, rendered_in: &str) -> (r: String)
    ensures
        r@ == page_of(total_tweets as nat, plot@, rendered_in@),
{
    let mut page =
        "\n<!DOCTYPE html>\n<html lang=\"en\">\n<head>\n<meta charset=\"utf-8\">\n<title>Hello!</title>\n<script type=\"text/javascript\">\nfunction load() { setTimeout(\"window.open(self.location, '_self');\", 1500); }\n</script>\n</head>\n<body onload=\"load()\">\n".to_owned();
    page.append(
        "Hi!  I'm written entirely in Rust.  I take Twitter data, do basic sentiment analysis on it, and then plot that data.  I've analyzed ",
    );
    let total_s = decimal_string(total_tweets);
    page.append(total_s.as_str());
    page.append(" tweets so far.</ br>");
    page.append("<center><h3>Previous ");
    let minutes = decimal_string((TWEET_RETAINMENT_SECONDS / 60) as usize);
    page.append(minutes.as_str());
    page.append(" Minutes of Twitter Sentiment Data</h3></center>");
    page.append(plot);
    page.append("<hr>");
    page.append(rendered_in);
    page.append("\n</body>\n</html>\n");
    proof {
        assert(page@ =~= page_of(total_tweets as nat, plot@, rendered_in@));
    }
    page
}

} // verus!
