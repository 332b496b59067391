//! Request construction, done by the `http` types that `isahc` sends.
//!
//! Nothing here is proved. Each function below makes one call into the
//! outside crate. What such a call gives is decided by the crate's own
//! rules for addresses and headers, and by its arguments alone; so the
//! result has a name, and the contract says no more than that the call
//! gives what the name stands for.

use isahc::config::Configurable;
use isahc::http::request::Builder;
use isahc::http::Request;
use vstd::prelude::*;

verus! {

/// `http::request::Builder`, carried through without a look inside.
#[verifier::external_type_specification]
#[verifier::external_body]
pub struct ExBuilder(isahc::http::request::Builder);

/// `http::Request`, carried through without a look inside.
#[verifier::external_type_specification]
#[verifier::external_body]
#[verifier::reject_recursive_types(T)]
pub struct ExRequest<T>(isahc::http::Request<T>);

/// The builder that `http::Request::get` gives for `uri`.
pub uninterp spec fn get_of(uri: Seq<char>) -> Builder;

/// The builder that `http::Request::post` gives for `uri`.
pub uninterp spec fn post_of(uri: Seq<char>) -> Builder;

/// The builder that `http::request::Builder::header` makes of `builder`
/// with one more header.
pub uninterp spec fn header_of(builder: Builder, name: Seq<char>, value: Seq<char>) -> Builder;

/// The builder that `isahc::config::Configurable::title_case_headers`
/// makes of `builder`.
pub uninterp spec fn title_case_of(builder: Builder, enable: bool) -> Builder;

/// What `http::request::Builder::body` makes of `builder` with an empty
/// body: the request, or nothing where the builder holds an error.
pub uninterp spec fn finish_of(builder: Builder) -> Option<Request<()>>;

/// What `http::request::Builder::body` makes of `builder` with a body of
/// text: the request, or nothing where the builder holds an error.
pub uninterp spec fn finish_with_of(builder: Builder, body: Seq<char>) -> Option<Request<String>>;

/// `http::Request::get`: starts a GET request to `uri`. An address that
/// does not parse is kept inside the builder and comes out of [`finish`].
#[verifier::external_body]
pub(crate) fn get(uri: &str) -> (builder: Builder)
    ensures
        builder == get_of(uri@),
{
    Request::get(uri)
}

/// `http::Request::post`: starts a POST request to `uri`. An address that
/// does not parse is kept inside the builder and comes out of
/// [`finish_with`].
#[verifier::external_body]
pub(crate) fn post(uri: &str) -> (builder: Builder)
    ensures
        builder == post_of(uri@),
{
    Request::post(uri)
}

/// `http::request::Builder::header`: adds one header. A name or value that
/// is not valid is kept inside the builder and comes out when the
/// construction ends.
#[verifier::external_body]
pub(crate) fn header(builder: Builder, name: &str, value: &str) -> (extended: Builder)
    ensures
        extended == header_of(builder, name@, value@),
{
    builder.header(name, value)
}

/// `isahc::config::Configurable::title_case_headers`: asks for header
/// names to be sent in title case.
#[verifier::external_body]
pub(crate) fn title_case_headers(builder: Builder, enable: bool) -> (configured: Builder)
    ensures
        configured == title_case_of(builder, enable),
{
    builder.title_case_headers(enable)
}

/// `http::request::Builder::body`, with an empty body: ends the
/// construction and gives the request, or nothing where an error was met
/// on the way.
#[verifier::external_body]
pub(crate) fn finish(builder: Builder) -> (finished: Option<Request<()>>)
    ensures
        finished == finish_of(builder),
{
    match builder.body(()) {
        Ok(request) => Some(request),
        Err(_) => None,
    }
}

/// `http::request::Builder::body`, with a body of text: ends the
/// construction and gives the request, or nothing where an error was met
/// on the way.
#[verifier::external_body]
pub(crate) fn finish_with(builder: Builder, body: String) -> (finished: Option<Request<String>>)
    ensures
        finished == finish_with_of(builder, body@),
{
    match builder.body(body) {
        Ok(request) => Some(request),
        Err(_) => None,
    }
}

} // verus!
