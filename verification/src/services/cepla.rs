//! The CepLá service: <http://cep.la/>.
//!
//! The service matches header names by their exact case, so requests to it
//! are sent with title-case header names.

use crate::error::{Error, ErrorView, KindView, Source};
use crate::services::{built, built_of, exchange, is_success, observed, outcome, seen, Body};
use crate::transport::{
    finish, finish_of, get, get_of, header, header_of, title_case_headers, title_case_of,
};
use isahc::http::Request;
use vstd::prelude::*;
use vstd::string::*;

verus! {

/// An address as CepLá reports it.
#[derive(Debug)]
pub struct Address {
    pub cep: String,
    pub state: String,
    pub city: String,
    pub neighborhood: String,
    pub address: String,
    pub details: String,
}

/// The mathematical content of an [`Address`].
pub struct AddressView {
    pub cep: Seq<char>,
    pub state: Seq<char>,
    pub city: Seq<char>,
    pub neighborhood: Seq<char>,
    pub address: Seq<char>,
    pub details: Seq<char>,
}

impl View for Address {
    type V = AddressView;

    open spec fn view(&self) -> AddressView {
        AddressView {
            cep: self.cep@,
            state: self.state@,
            city: self.city@,
            neighborhood: self.neighborhood@,
            address: self.address@,
            details: self.details@,
        }
    }
}

impl AddressView {
    /// The canonical address that this one stands for: every field,
    /// unchanged.
    pub open spec fn normalized(self) -> crate::services::AddressView {
        crate::services::AddressView {
            cep: self.cep,
            address: self.address,
            details: self.details,
            neighborhood: self.neighborhood,
            state: self.state,
            city: self.city,
        }
    }
}

/// The address at which CepLá answers for `cep`.
pub open spec fn uri_of(cep: Seq<char>) -> Seq<char> {
    "http://cep.la/"@ + cep
}

/// The failure reported when no request could be built.
pub open spec fn unbuilt() -> ErrorView {
    ErrorView { source: Source::Cepla, kind: KindView::UnexpectedLibraryError }
}

/// The address at which CepLá answers for `cep`. The code goes into the
/// path as it was given, with or without its separator.
pub fn uri(cep: &str) -> (s: String)
    ensures
        s@ == uri_of(cep@),
{
    let mut s = String::from_str("http://cep.la/");
    s.append(cep);
    s
}

/// What the outside builder makes of the request for `cep`: a GET of the
/// service's address for it, with header names in title case and the one
/// header that asks for JSON.
pub open spec fn prepared(cep: Seq<char>) -> Option<Request<()>> {
    finish_of(
        header_of(title_case_of(get_of(uri_of(cep)), true), "Accept"@, "application/json"@),
    )
}

/// Builds the request for `cep`: a GET of [`uri`] that accepts JSON, with
/// header names in title case. It gives the request that the outside
/// builder makes of exactly these parts, and the failure of the library
/// where the builder makes none.
pub fn prepare(cep: &str) -> (r: Result<Request<()>, Error>)
    ensures
        seen(r) == built_of(Source::Cepla, prepared(cep@)),
{
    let builder = get(uri(cep).as_str());
    let builder = title_case_headers(builder, true);
    let builder = header(builder, "Accept", "application/json");
    built(Source::Cepla, finish(builder))
}

/// Looks `cep` up at CepLá. `send` performs the request and gives the
/// status with the response, or nothing where no response arrived; `read`
/// reads the body of a response, or gives nothing where the response has
/// no body, and is called only under a status from 200 to 299. The request that `send` gets is the one that [`prepare`]
/// builds; where none is built, neither is called.
pub fn request<H, S, R>(cep: &str, send: S, read: R) -> (r: Result<Address, Error>)
    where
        S: FnOnce(Request<()>) -> Option<(u16, H)>,
        R: FnOnce(H) -> Option<Body<Address>>,
    requires
        forall|request: Request<()>| call_requires(send, (request,)),
        forall|response: H| call_requires(read, (response,)),
    ensures
        match prepared(cep@) {
            None => seen(r) == Err::<Address, ErrorView>(unbuilt()),
            Some(request) => exists|sent: Option<(u16, H)>, body: Option<Body<Address>>|
                #![trigger observed(sent, body)]
                {
                    &&& call_ensures(send, (request,), sent)
                    &&& sent matches Some(answer) ==> (is_success(answer.0) ==> call_ensures(
                        read,
                        (answer.1,),
                        body,
                    ))
                    &&& seen(r) == outcome(Source::Cepla, observed(sent, body))
                },
        },
{
    match prepare(cep) {
        Ok(request) => exchange(Source::Cepla, request, send, read),
        Err(e) => Err(e),
    }
}

} // verus!
