//! The Correios service, reached through its SOAP endpoint.

use crate::error::{Error, ErrorView, KindView, Source};
use crate::services::{built, built_of, exchange, is_success, observed, outcome, seen, Body};
use crate::transport::{finish_with, finish_with_of, header, header_of, post, post_of};
use isahc::http::Request;
use vstd::prelude::*;
use vstd::string::*;

verus! {

/// An address as Correios reports it.
#[derive(Debug)]
pub struct Address {
    pub cep: String,
    pub state: String,
    pub city: String,
    pub neighborhood: String,
    pub address: String,
}

/// The mathematical content of an [`Address`].
pub struct AddressView {
    pub cep: Seq<char>,
    pub state: Seq<char>,
    pub city: Seq<char>,
    pub neighborhood: Seq<char>,
    pub address: Seq<char>,
}

impl View for Address {
    type V = AddressView;

    open spec fn view(&self) -> AddressView {
        AddressView {
            cep: self.cep@,
            state: self.state@,
            city: self.city@,
            neighborhood: self.neighborhood@,
            address: self.address@,
        }
    }
}

impl AddressView {
    /// The canonical address that this one stands for: the five fields the
    /// service has, and empty details.
    pub open spec fn normalized(self) -> crate::services::AddressView {
        crate::services::AddressView {
            cep: self.cep,
            address: self.address,
            details: Seq::empty(),
            neighborhood: self.neighborhood,
            state: self.state,
            city: self.city,
        }
    }
}

/// The address of the service's SOAP endpoint.
pub const ENDPOINT: &'static str =
    "https://apps.correios.com.br/SigepMasterJPA/AtendeClienteService/AtendeCliente?wsdl";

/// The SOAP envelope that asks Correios for `cep`.
pub open spec fn envelope_of(cep: Seq<char>) -> Seq<char> {
    "\n    <soapenv:Envelope xmlns:soapenv=\"http://schemas.xmlsoap.org/soap/envelope/\" xmlns:cli=\"http://cliente.bean.master.sigep.bsb.correios.com.br/\">\n        <soapenv:Header/>\n        <soapenv:Body>\n            <cli:consultaCEP>\n                <cep>"@
        + cep + "</cep>\n            </cli:consultaCEP>\n        </soapenv:Body>\n    </soapenv:Envelope>\n    "@
}

/// The failure reported when no request could be built.
pub open spec fn unbuilt() -> ErrorView {
    ErrorView { source: Source::Correios, kind: KindView::UnexpectedLibraryError }
}

/// The SOAP envelope that asks Correios for `cep`. The code goes into the
/// `cep` element as it was given, with or without its separator.
pub fn envelope(cep: &str) -> (s: String)
    ensures
        s@ == envelope_of(cep@),
{
    let mut s = String::from_str(
        "\n    <soapenv:Envelope xmlns:soapenv=\"http://schemas.xmlsoap.org/soap/envelope/\" xmlns:cli=\"http://cliente.bean.master.sigep.bsb.correios.com.br/\">\n        <soapenv:Header/>\n        <soapenv:Body>\n            <cli:consultaCEP>\n                <cep>",
    );
    s.append(cep);
    s.append("</cep>\n            </cli:consultaCEP>\n        </soapenv:Body>\n    </soapenv:Envelope>\n    ");
    s
}

/// What the outside builder makes of the request for `cep`: a POST of the
/// envelope for it to the service's endpoint, declared as SOAP and not to
/// be cached.
pub open spec fn prepared(cep: Seq<char>) -> Option<Request<String>> {
    finish_with_of(
        header_of(
            header_of(post_of(ENDPOINT@), "content-type"@, "application/soap+xml;charset=utf-8"@),
            "cache-control"@,
            "no-cache"@,
        ),
        envelope_of(cep),
    )
}

/// Builds the request for `cep`: a POST of [`envelope`] to [`ENDPOINT`],
/// declared as SOAP and not to be cached. It gives the request that the
/// outside builder makes of exactly these parts, and the failure of the
/// library where the builder makes none.
pub fn prepare(cep: &str) -> (r: Result<Request<String>, Error>)
    ensures
        seen(r) == built_of(Source::Correios, prepared(cep@)),
{
    let builder = post(ENDPOINT);
    let builder = header(builder, "content-type", "application/soap+xml;charset=utf-8");
    let builder = header(builder, "cache-control", "no-cache");
    built(Source::Correios, finish_with(builder, envelope(cep)))
}

/// Looks `cep` up at Correios. `send` performs the request and gives the
/// status with the response, or nothing where no response arrived; `read`
/// reads the body of a response, or gives nothing where the response has
/// no body, and is called only under a status from 200 to 299. The request that `send` gets is the one that [`prepare`]
/// builds; where none is built, neither is called.
pub fn request<H, S, R>(cep: &str, send: S, read: R) -> (r: Result<Address, Error>)
    where
        S: FnOnce(Request<String>) -> Option<(u16, H)>,
        R: FnOnce(H) -> Option<Body<Address>>,
    requires
        forall|request: Request<String>| call_requires(send, (request,)),
        forall|response: H| call_requires(read, (response,)),
    ensures
        match prepared(cep@) {
            None => seen(r) == Err::<Address, ErrorView>(unbuilt()),
            Some(request) => exists|sent: Option<(u16, H)>, body: Option<Body<Address>>|
                #![trigger observed(sent, body)]
                {
                    &&& call_ensures(send, (request,), sent)
                    &&& sent matches Some(answer) ==> (is_success(answer.0) ==> call_ensures(
                        read,
                        (answer.1,),
                        body,
                    ))
                    &&& seen(r) == outcome(Source::Correios, observed(sent, body))
                },
        },
{
    match prepare(cep) {
        Ok(request) => exchange(Source::Correios, request, send, read),
        Err(e) => Err(e),
    }
}

} // verus!
