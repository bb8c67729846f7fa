//! Absolute URLs, held as the serialization that the `url` crate gives them.
use vstd::prelude::*;

verus! {

#[verifier::external_type_specification]
#[verifier::external_body]
pub struct ExUrlParseError(url::ParseError);

/// The serialization of the URL that `url::Url::parse` reads from `input`, or
/// `None` where it refuses `input`.
pub uninterp spec fn url_parse(input: Seq<char>) -> Option<Seq<char>>;

/// The name/value pairs that `url::Url::query_pairs` decodes from the query
/// of the URL with this serialization.
pub uninterp spec fn url_query_pairs(serialization: Seq<char>) -> Seq<(Seq<char>, Seq<char>)>;

/// The serialization of the URL after
/// `url::form_urlencoded::Serializer::extend_pairs` has appended `pairs` to
/// its query.
pub uninterp spec fn url_extend_query(
    serialization: Seq<char>,
    pairs: Seq<(Seq<char>, Seq<char>)>,
) -> Seq<char>;

/// `s` is what the `url` crate serializes some URL to: parsing it gives it back.
pub open spec fn is_url_serialization(s: Seq<char>) -> bool {
    url_parse(s) == Some(s)
}

/// Calls `url::Url::parse` and keeps the serialization of the result. The
/// result is named `url_parse`. That a serialization parses to itself is what
/// `Url::check_invariants` in the crate's source asserts of every `Url`.
#[verifier::external_body]
fn parse_to_serialization(input: &str) -> (r: Result<String, url::ParseError>)
    ensures
        match r {
            Ok(s) => url_parse(input@) == Some(s@) && is_url_serialization(s@),
            Err(_) => url_parse(input@) is None,
        },
{
    match url::Url::parse(input) {
        Ok(parsed) => Ok(String::from(parsed)),
        Err(e) => Err(e),
    }
}

/// Calls `url::Url::query_pairs` on the URL with this serialization (read back
/// with `Url::parse`, which `requires` shows succeeds) and turns the decoded
/// pairs into owned strings, in order.
#[verifier::external_body]
fn query_pairs_of(serialization: &str) -> (r: Vec<(String, String)>)
    requires
        is_url_serialization(serialization@),
    ensures
        r.deep_view() == url_query_pairs(serialization@),
{
    url::Url::parse(serialization).unwrap().query_pairs().into_owned().collect()
}

/// Calls `extend_pairs` on `url::Url::query_pairs_mut` of the URL with this
/// serialization (read back with `Url::parse`, which `requires` shows
/// succeeds), then `finish`, and returns the new serialization, named
/// `url_extend_query`. Stated besides, as the source shows: the result is again
/// a serialization, and its query decodes to the old pairs followed by the new
/// ones (`append_pair` writes a `&` only between pairs, encodes each pair with
/// `form_urlencoded::byte_serialize`, which `query_pairs` decodes back, and the
/// fragment is put back after the query).
#[verifier::external_body]
fn extend_query_of(serialization: &str, pairs: &Vec<(String, String)>) -> (r: String)
    requires
        is_url_serialization(serialization@),
    ensures
        r@ == url_extend_query(serialization@, pairs.deep_view()),
        is_url_serialization(r@),
        url_query_pairs(r@) == url_query_pairs(serialization@) + pairs.deep_view(),
{
    let mut parsed = url::Url::parse(serialization).unwrap();
    parsed.query_pairs_mut().extend_pairs(pairs.iter()).finish();
    String::from(parsed)
}

/// An absolute URL, held as its serialization.
#[derive(Debug)]
pub struct Url {
    serialization: String,
}

impl View for Url {
    type V = Seq<char>;

    closed spec fn view(&self) -> Seq<char> {
        self.serialization@
    }
}

impl Clone for Url {
    /// The same URL.
    fn clone(&self) -> (r: Url)
        ensures
            r@ == self@,
    {
        proof {
            use_type_invariant(self);
        }
        Url { serialization: self.serialization.clone() }
    }
}

impl Url {
    #[verifier::type_invariant]
    spec fn well_formed(self) -> bool {
        is_url_serialization(self.serialization@)
    }

    /// Parses an absolute URL; `None` where the `url` crate refuses `input`.
    pub fn parse(input: &str) -> (r: Option<Url>)
        ensures
            match r {
                Some(u) => url_parse(input@) == Some(u@),
                None => url_parse(input@) is None,
            },
    {
        match parse_to_serialization(input) {
            Ok(s) => Some(Url { serialization: s }),
            Err(_) => None,
        }
    }

    /// The serialization of this URL.
    pub fn as_str(&self) -> (s: &str)
        ensures
            s@ == self@,
            is_url_serialization(self@),
    {
        proof {
            use_type_invariant(self);
        }
        self.serialization.as_str()
    }

    /// The name/value pairs of the query, decoded, in order.
    pub fn query_pairs(&self) -> (r: Vec<(String, String)>)
        ensures
            r.deep_view() == url_query_pairs(self@),
    {
        proof {
            use_type_invariant(self);
        }
        query_pairs_of(self.serialization.as_str())
    }

    /// This URL with `pairs` appended to its query, in order.
    pub fn with_query_pairs(self, pairs: &Vec<(String, String)>) -> (r: Url)
        ensures
            r@ == url_extend_query(self@, pairs.deep_view()),
            url_query_pairs(r@) == url_query_pairs(self@) + pairs.deep_view(),
    {
        proof {
            use_type_invariant(&self);
        }
        let s = extend_query_of(self.serialization.as_str(), pairs);
        Url { serialization: s }
    }
}

} // verus!
