//! URL and query-string construction: percent-encoding, base-URL
//! validation, and `key=value` joining. The same encoding builds
//! form-urlencoded request bodies.

use vstd::prelude::*;
use vstd::string::StringExecFns;
use crate::error::Error;

verus! {

pub uninterp spec fn urlenc_of(s: Seq<char>) -> Seq<char>;

/// Characters that percent-encoding leaves unchanged.
pub open spec fn spec_unreserved(c: char) -> bool {
    ('0' <= c && c <= '9') || ('A' <= c && c <= 'Z') || ('a' <= c && c <= 'z') || c == '-' || c
        == '.' || c == '_' || c == '~'
}

/// Relies on `urlencoding::encode`: percent-encodes every byte except
/// ASCII alphanumerics and `-`, `.`, `_`, `~`; the result is a function of
/// the text alone, and text made only of unreserved characters comes back
/// unchanged.
#[verifier::external_body]
pub fn url_encode(s: &str) -> (r: String)
    ensures
        r@ == urlenc_of(s@),
        (forall|i: int| 0 <= i < s@.len() ==> spec_unreserved(s@[i])) ==> r@ == s@,
{
    urlencoding::encode(s).into_owned()
}

pub uninterp spec fn urlenc_bytes_of(b: Seq<u8>) -> Seq<char>;

/// Relies on `urlencoding::encode_binary`: percent-encodes every byte
/// except ASCII alphanumerics and `-`, `.`, `_`, `~`; the result is a
/// function of the bytes alone.
#[verifier::external_body]
pub fn url_encode_bytes(b: &[u8]) -> (r: String)
    ensures
        r@ == urlenc_bytes_of(b@),
{
    urlencoding::encode_binary(b).into_owned()
}

pub uninterp spec fn query_ready_url_of(s: Seq<char>) -> Option<Seq<char>>;

/// Relies on `url::Url::parse` and `url::Url::query`: parsing fails or
/// yields a normalized absolute URL, a function of the input text alone.
/// The result is that URL with `&` appended when it already carries a
/// query and `?` otherwise, ready for query parameters.
#[verifier::external_body]
pub fn prepare_url(s: &str) -> (r: Option<String>)
    ensures
        r is Some <==> query_ready_url_of(s@) is Some,
        r matches Some(u) ==> query_ready_url_of(s@) == Some(u@),
{
    match url::Url::parse(s) {
        Ok(u) => {
            let sep = if u.query().is_some() { "&" } else { "?" };
            Some(format!("{}{}", u, sep))
        },
        Err(_) => None,
    }
}

/// One percent-encoded `key=value` pair.
pub open spec fn spec_query_pair(k: Seq<char>, v: Seq<char>) -> Seq<char> {
    urlenc_of(k) + "="@ + urlenc_of(v)
}

/// The `&`-joined pairs of `params`, in order.
pub open spec fn spec_query_items(params: Seq<(Seq<char>, Seq<char>)>) -> Seq<char>
    decreases params.len(),
{
    if params.len() == 0 {
        Seq::empty()
    } else if params.len() == 1 {
        spec_query_pair(params.last().0, params.last().1)
    } else {
        spec_query_items(params.drop_last()) + "&"@ + spec_query_pair(
            params.last().0,
            params.last().1,
        )
    }
}

/// Joins `params` as a percent-encoded query (or form-urlencoded body).
pub fn build_query(params: &Vec<(String, String)>) -> (r: String)
    ensures
        r@ == spec_query_items(params.deep_view()),
{
    let mut out = String::new();
    let len = params.len();
    for i in 0..len
        invariant
            len == params@.len(),
            out@ == spec_query_items(params.deep_view().take(i as int)),
    {
        if i > 0 {
            out.append("&");
        }
        let pair = &params[i];
        let ek = url_encode(pair.0.as_str());
        out.append(ek.as_str());
        out.append("=");
        let ev = url_encode(pair.1.as_str());
        out.append(ev.as_str());
        proof {
            assert(params.deep_view().take(i + 1).drop_last() =~= params.deep_view().take(
                i as int,
            ));
            assert(params.deep_view().take(i + 1).last() == (pair.0@, pair.1@));
            assert(out@ == spec_query_items(params.deep_view().take(i + 1)));
        }
    }
    proof {
        assert(params.deep_view().take(len as int) =~= params.deep_view());
    }
    out
}

/// The full request URL: the validated base, then the pairs of `params`.
pub open spec fn spec_api_url(base: Seq<char>, params: Seq<(Seq<char>, Seq<char>)>) -> Seq<char>
    recommends
        query_ready_url_of(base) is Some,
{
    query_ready_url_of(base)->Some_0 + spec_query_items(params)
}

/// Validates `base` and appends `params` as its query string. Fails with a
/// parameter-carrying URL error exactly when `base` does not parse.
pub fn build_url(base: &str, params: &Vec<(String, String)>) -> (r: Result<String, Error>)
    ensures
        r is Ok <==> query_ready_url_of(base@) is Some,
        r matches Ok(u) ==> u@ == spec_api_url(base@, params.deep_view()),
        r matches Err(e) ==> e matches Error::UrlParseError(m) && m@ == base@,
{
    match prepare_url(base) {
        Some(prefix) => {
            let q = build_query(params);
            Ok(prefix.concat(q.as_str()))
        },
        None => Err(Error::UrlParseError(s_to_string(base))),
    }
}

/// An owned copy of `s`.
pub fn s_to_string(s: &str) -> (r: String)
    ensures
        r@ == s@,
{
    s.to_owned()
}

} // verus!
