//! Addresses of remote resources, as the `url` crate reads them.

use crate::error::Error;
use vstd::prelude::*;
use vstd::string::*;

verus! {

/// A parsed address: its normalized text and the segments of its path.
///
/// Values come from `Address::parse` only, so each is what the parser made
/// of some text.
#[derive(Debug, Clone, PartialEq, Eq)]
pub struct Address {
    text: String,
    path_segments: Option<Vec<String>>,
}

/// What an `Address` stands for.
pub struct AddressView {
    /// The address written out in normalized form.
    pub text: Seq<char>,
    /// The `/`-separated segments of the path, percent-encoded; `None` for an
    /// address that cannot be a base, whose path is no list of segments.
    pub path_segments: Option<Seq<Seq<char>>>,
}

impl View for Address {
    type V = AddressView;

    closed spec fn view(&self) -> AddressView {
        AddressView {
            text: self.text@,
            path_segments: match self.path_segments {
                Some(segments) => Some(segments.deep_view()),
                None => None,
            },
        }
    }
}

/// What the URL parser makes of `text`: the address it reads, or `None`
/// where `text` is no absolute URL.
pub uninterp spec fn parsed_url(text: Seq<char>) -> Option<AddressView>;

/// `url::Url::parse`, with the outcome read off by `String::from` and
/// `url::Url::path_segments`. It succeeds exactly on the texts that the
/// parser accepts, and then returns the address that it read.
#[verifier::external_body]
fn parse_url(text: &str) -> (parsed: Result<Address, url::ParseError>)
    ensures
        parsed is Ok <==> parsed_url(text@) is Some,
        parsed matches Ok(address) ==> parsed_url(text@) == Some(address@),
{
    let url = url::Url::parse(text)?;
    let path_segments = url.path_segments().map(|parts| parts.map(String::from).collect());
    Ok(Address { text: url.into(), path_segments })
}

impl Address {
    /// Parses an absolute URL.
    ///
    /// Succeeds exactly on the texts that the URL parser accepts; any other
    /// text is refused with `Error::Url`.
    pub fn parse(text: &str) -> (result: Result<Address, Error>)
        ensures
            match parsed_url(text@) {
                Some(address) => result matches Ok(read) && read@ == address,
                None => result matches Err(Error::Url(_)),
            },
    {
        match parse_url(text) {
            Ok(address) => Ok(address),
            Err(cause) => Err(Error::Url(cause)),
        }
    }

    /// The address written out in normalized form.
    pub fn as_str(&self) -> (text: &str)
        ensures
            text@ == self@.text,
    {
        self.text.as_str()
    }

    /// The last segment of the path, where the path has segments.
    pub fn last_path_segment(&self) -> (last: Option<&str>)
        ensures
            match self@.path_segments {
                Some(segments) if segments.len() > 0 => last matches Some(text) && text@
                    == segments.last(),
                _ => last is None,
            },
    {
        match &self.path_segments {
            Some(segments) => {
                let count = segments.len();
                if count > 0 {
                    Some(segments[count - 1].as_str())
                } else {
                    None
                }
            },
            None => None,
        }
    }
}

} // verus!
