//! The address of a stream, as the URL parser writes it.

use vstd::prelude::*;
use vstd::string::StringExecFns;

verus! {

/// The text that the URL parser writes for `input`, where it takes `input`
/// for an absolute URL; `None` where it refuses it.
pub uninterp spec fn parsed_url_text(input: Seq<char>) -> Option<Seq<char>>;

/// Calls `url::Url::parse` and gives the accepted URL back as its text, by
/// `String::from`. The contract only names the outcome: the same input gives
/// the same text or the same refusal.
#[verifier::external_body]
fn parse_url_text(input: &str) -> (text: Option<String>)
    ensures
        match text {
            Some(t) => parsed_url_text(input@) == Some(t@),
            None => parsed_url_text(input@).is_none(),
        },
{
    match url::Url::parse(input) {
        Ok(parsed) => Some(String::from(parsed)),
        Err(_) => None,
    }
}

/// An absolute URL that the parser accepted, held as the text it wrote.
#[derive(Clone, Debug)]
pub struct StreamUrl {
    text: String,
}

impl View for StreamUrl {
    type V = Seq<char>;

    closed spec fn view(&self) -> Seq<char> {
        self.text@
    }
}

impl StreamUrl {
    /// Parses an absolute URL. Gives `None` exactly where the parser refuses
    /// the input.
    pub fn parse(input: &str) -> (url: Option<StreamUrl>)
        ensures
            match url {
                Some(u) => parsed_url_text(input@) == Some(u@),
                None => parsed_url_text(input@).is_none(),
            },
    {
        match parse_url_text(input) {
            Some(text) => Some(StreamUrl { text }),
            None => None,
        }
    }

    /// The text of the URL.
    pub fn as_str(&self) -> (text: &str)
        ensures
            text@ == self@,
    {
        self.text.as_str()
    }

    /// The text of the URL, owned.
    pub fn into_string(self) -> (text: String)
        ensures
            text@ == self@,
    {
        self.text
    }
}

} // verus!
