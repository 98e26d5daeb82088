//! The one input of a relay run: the address of the media session.

use vstd::prelude::*;

verus! {

/// What `url::Url::parse` makes of `text`: the serialization of the URL that
/// it returns, or nothing where it returns an error.
pub uninterp spec fn canonical_url(text: Seq<char>) -> Option<Seq<char>>;

/// Calls `url::Url::parse` on `text` and hands back the serialization of the
/// URL. The contract names the result and claims no more than that equal
/// texts give equal results; nothing is proved of the parser itself.
#[verifier::external_body]
fn parse_url(text: &str) -> (r: Option<String>)
    ensures
        match r {
            Some(url) => canonical_url(text@) == Some(url@),
            None => canonical_url(text@) is None,
        },
{
    match url::Url::parse(text) {
        Ok(url) => Some(String::from(url)),
        Err(_) => None,
    }
}

/// The options of a relay run.
#[derive(Debug, PartialEq, Eq)]
pub struct Opts {
    url: String,
}

impl View for Opts {
    type V = Seq<char>;

    closed spec fn view(&self) -> Seq<char> {
        self.url@
    }
}

impl Opts {
    /// Options with the session address `url`, taken as it is given.
    pub fn new(url: String) -> (r: Opts)
        ensures
            r@ == url@,
    {
        Opts { url }
    }

    /// Options with the session address that the URL parser handed back, or
    /// nothing where it handed back none.
    pub fn from_parsed(parsed: Option<String>) -> (r: Option<Opts>)
        ensures
            r is Some == parsed is Some,
            r matches Some(opts) ==> opts@ == parsed->0@,
    {
        match parsed {
            Some(url) => Some(Opts::new(url)),
            None => None,
        }
    }

    /// Reads the session address from `text`. There are options exactly where
    /// the URL parser accepts `text`, and they hold the URL as the parser
    /// writes it.
    pub fn parse(text: &str) -> (r: Option<Opts>)
        ensures
            match r {
                Some(opts) => canonical_url(text@) == Some(opts@),
                None => canonical_url(text@) is None,
            },
    {
        Opts::from_parsed(parse_url(text))
    }

    /// The session address.
    pub fn url(&self) -> (r: &str)
        ensures
            r@ == self@,
    {
        self.url.as_str()
    }
}

impl Clone for Opts {
    fn clone(&self) -> (r: Opts)
        ensures
            r@ == self@,
    {
        Opts { url: self.url.clone() }
    }
}

} // verus!
