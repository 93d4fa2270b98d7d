//! Addresses as the `url` crate, which `reqwest` hands on, reads and joins them.
//! An address is held by its text.
use vstd::prelude::*;

verus! {

/// What `reqwest::Url::parse` makes of a text: the text of the address that it
/// reads, or that of the error.
pub uninterp spec fn parsed_url(text: Seq<char>) -> Result<Seq<char>, Seq<char>>;

/// What `reqwest::Url::join` makes of an address, given by its text, and a path:
/// the text of the new address, or that of the error.
pub uninterp spec fn joined_url(base: Seq<char>, path: Seq<char>) -> Result<Seq<char>, Seq<char>>;

/// The text of an address or that of an error, over character sequences.
pub open spec fn url_view(url: Result<String, String>) -> Result<Seq<char>, Seq<char>> {
    match url {
        Ok(url) => Ok(url@),
        Err(message) => Err(message@),
    }
}

/// `reqwest::Url::parse`: a function of the text alone, named `parsed_url`. The
/// address is given by its text, which may differ from the one that was read: a
/// host, say, comes out in lower case.
#[verifier::external_body]
pub(crate) fn parse_url(text: &str) -> (r: Result<String, String>)
    ensures
        url_view(r) == parsed_url(text@),
{
    match reqwest::Url::parse(text) {
        Ok(url) => Ok(url.to_string()),
        Err(error) => Err(error.to_string()),
    }
}

/// `reqwest::Url::join` on the address whose text is `base`: a function of the two
/// texts alone, named `joined_url`. Where `base` cannot be read as an address, the
/// error is the one that reading it gives.
#[verifier::external_body]
pub(crate) fn join_url(base: &str, path: &str) -> (r: Result<String, String>)
    ensures
        url_view(r) == joined_url(base@, path@),
        parsed_url(base@) is Err ==> url_view(r) == parsed_url(base@),
{
    match reqwest::Url::parse(base) {
        Ok(url) => match url.join(path) {
            Ok(joined) => Ok(joined.to_string()),
            Err(error) => Err(error.to_string()),
        },
        Err(error) => Err(error.to_string()),
    }
}

/// The text by which an address is held: that of the address which was read, or,
/// where none could be read, the given text.
pub open spec fn held_address(given: Seq<char>, parsed: Result<Seq<char>, Seq<char>>) -> Seq<char> {
    match parsed {
        Ok(text) => text,
        Err(_) => given,
    }
}

/// The text by which an address is held, given what reading it came to.
pub fn hold_address(given: String, parsed: Result<String, String>) -> (r: String)
    ensures
        r@ == held_address(given@, url_view(parsed)),
{
    match parsed {
        Ok(text) => text,
        Err(_) => given,
    }
}

} // verus!
