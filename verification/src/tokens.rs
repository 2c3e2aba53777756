use vstd::prelude::*;

verus! {

/// The four credentials the external stream API is opened with.  Their
/// use — authenticating the stream connection — lies with the external
/// collaborator; reading them out of the operator's configuration text is
/// what happens here.
pub struct TwitterTokens {
    pub consumer_key: String,
    pub consumer_secret: String,
    pub access_key: String,
    pub access_secret: String,
}

/// Mathematical image of [`TwitterTokens`].
pub ghost struct TwitterTokensView {
    pub consumer_key: Seq<char>,
    pub consumer_secret: Seq<char>,
    pub access_key: Seq<char>,
    pub access_secret: Seq<char>,
}

impl View for TwitterTokens {
    type V = TwitterTokensView;

    open spec fn view(&self) -> TwitterTokensView {
        TwitterTokensView {
            consumer_key: self.consumer_key@,
            consumer_secret: self.consumer_secret@,
            access_key: self.access_key@,
            access_secret: self.access_secret@,
        }
    }
}

/// What the YAML credential lookup yields: when the text parses and its
/// first document is a hash mapping each of the four credential names to
/// a string, exactly those four strings; nothing otherwise — a function
/// of the text alone.
pub uninterp spec fn tokens_of(contents: Seq<char>) -> Option<TwitterTokensView>;

/// Relies on yaml_rust: `YamlLoader::load_from_str` (deterministic parse;
/// the scanner bounds its own recursion and returns an error instead of
/// aborting), `Yaml`'s string indexing (hash lookup with a bad-value
/// fallback, never a panic) and `Yaml::as_str` (the text of a YAML
/// string, `None` otherwise — in particular for the bad-value marker).
#[verifier::external_body]
fn parse_tokens(contents: &str) -> (r: Option<TwitterTokens>)
    ensures
        match r {
            Some(t) => tokens_of(contents@) == Some(t@),
            None => tokens_of(contents@) is None,
        },
{
    let docs = yaml_rust::YamlLoader::load_from_str(contents).ok()?;
    let doc = docs.first()?;
    Some(TwitterTokens {
        consumer_key: doc["consumer_key"].as_str()?.to_owned(),
        consumer_secret: doc["consumer_secret"].as_str()?.to_owned(),
        access_key: doc["access_key"].as_str()?.to_owned(),
        access_secret: doc["access_secret"].as_str()?.to_owned(),
    })
}

/// Reads the four stream credentials out of the configuration text, a
/// YAML hash holding each under its own name: exactly those four strings
/// when all are present, `None` where the text does not parse, holds no
/// document, or lacks one of the keys.  The caller treats `None` as fatal
/// at startup, since without credentials the stream cannot be opened at
/// all; credentials are never defaulted.
pub fn load_twitter_tokens(contents: &str) -> (r: Option<TwitterTokens>)
    ensures
        match r {
            Some(t) => tokens_of(contents@) == Some(t@),
            None => tokens_of(contents@) is None,
        },
{
    parse_tokens(contents)
}

} // verus!
