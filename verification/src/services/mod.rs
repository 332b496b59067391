//! The canonical address, and the three services that can supply one.

pub mod cepla;
pub mod correios;
pub mod viacep;

use crate::error::{Error, ErrorView, Kind, KindView, Source};
use isahc::http::Request;
use vstd::prelude::*;
use vstd::string::*;

verus! {

/// The canonical address. Every service's own address converts to it.
#[derive(Debug)]
pub struct Address {
    pub cep: String,
    pub address: String,
    pub details: String,
    pub neighborhood: String,
    pub state: String,
    pub city: String,
}

/// The mathematical content of an [`Address`].
pub struct AddressView {
    pub cep: Seq<char>,
    pub address: Seq<char>,
    pub details: Seq<char>,
    pub neighborhood: Seq<char>,
    pub state: Seq<char>,
    pub city: Seq<char>,
}

impl View for Address {
    type V = AddressView;

    open spec fn view(&self) -> AddressView {
        AddressView {
            cep: self.cep@,
            address: self.address@,
            details: self.details@,
            neighborhood: self.neighborhood@,
            state: self.state@,
            city: self.city@,
        }
    }
}

impl viacep::Address {
    /// Converts a Viacep address to the canonical address.
    pub fn to_address(&self) -> (addr: Address)
        ensures
            addr@ == self@.normalized(),
    {
        Address {
            cep: self.cep.clone(),
            address: self.address.clone(),
            details: self.details.clone(),
            neighborhood: self.neighborhood.clone(),
            state: self.state.clone(),
            city: self.city.clone(),
        }
    }
}

impl correios::Address {
    /// Converts a Correios address to the canonical address. The service
    /// has no details, so the canonical address gets empty ones.
    pub fn to_address(&self) -> (addr: Address)
        ensures
            addr@ == self@.normalized(),
    {
        Address {
            cep: self.cep.clone(),
            address: self.address.clone(),
            details: String::new(),
            neighborhood: self.neighborhood.clone(),
            state: self.state.clone(),
            city: self.city.clone(),
        }
    }
}

impl cepla::Address {
    /// Converts a CepLá address to the canonical address.
    pub fn to_address(&self) -> (addr: Address)
        ensures
            addr@ == self@.normalized(),
    {
        Address {
            cep: self.cep.clone(),
            address: self.address.clone(),
            details: self.details.clone(),
            neighborhood: self.neighborhood.clone(),
            state: self.state.clone(),
            city: self.city.clone(),
        }
    }
}

/// Converting a Viacep address twice gives the same canonical address,
/// field for field.
pub proof fn lemma_viacep_conversion_repeats(address: viacep::Address, once: Address, twice: Address)
    requires
        once@ == address@.normalized(),
        twice@ == address@.normalized(),
    ensures
        once.cep@ == twice.cep@,
        once.address@ == twice.address@,
        once.details@ == twice.details@,
        once.neighborhood@ == twice.neighborhood@,
        once.state@ == twice.state@,
        once.city@ == twice.city@,
{
}

/// Converting a Correios address twice gives the same canonical address,
/// field for field.
pub proof fn lemma_correios_conversion_repeats(
    address: correios::Address,
    once: Address,
    twice: Address,
)
    requires
        once@ == address@.normalized(),
        twice@ == address@.normalized(),
    ensures
        once.cep@ == twice.cep@,
        once.address@ == twice.address@,
        once.details@ == twice.details@,
        once.neighborhood@ == twice.neighborhood@,
        once.state@ == twice.state@,
        once.city@ == twice.city@,
{
}

/// Converting a CepLá address twice gives the same canonical address,
/// field for field.
pub proof fn lemma_cepla_conversion_repeats(address: cepla::Address, once: Address, twice: Address)
    requires
        once@ == address@.normalized(),
        twice@ == address@.normalized(),
    ensures
        once.cep@ == twice.cep@,
        once.address@ == twice.address@,
        once.details@ == twice.details@,
        once.neighborhood@ == twice.neighborhood@,
        once.state@ == twice.state@,
        once.city@ == twice.city@,
{
}

/// The body of a successful response, after the attempt to read it.
#[derive(Debug)]
pub enum Body<A> {
    /// The body matched the service's schema.
    Parsed(A),
    /// The body did not match. `error` is the parser's message; `text` is
    /// what could still be read of the body as text or, where that failed
    /// too, the reader's message.
    Unparsed { error: String, text: Result<String, String> },
}

/// What the transport brought back for one call to a service.
#[derive(Debug)]
pub enum Reply<A> {
    /// The transport failed: no response arrived.
    Unsent,
    /// A response arrived. The body is absent where the response had none;
    /// it is looked at only under a status from 200 to 299.
    Answered { status: u16, body: Option<Body<A>> },
}

/// Whether a response has a body to read, given the length that was
/// announced for it, if any: every response but one whose body is
/// announced as zero bytes long.
pub open spec fn body_announced(length: Option<u64>) -> bool {
    length != Some(0u64)
}

/// Tells whether a response has a body to read, given the length that was
/// announced for it, if any. Only a body announced as zero bytes long
/// counts as absent; one of unknown length has to be read.
pub fn has_body(length: Option<u64>) -> (present: bool)
    ensures
        present == body_announced(length),
{
    match length {
        Some(bytes) => bytes != 0,
        None => true,
    }
}

/// The statuses under which a response's body is read.
pub open spec fn is_success(status: u16) -> bool {
    200 <= status <= 299
}

/// The failure that a status outside the success range stands for.
pub open spec fn status_failure(status: u16) -> KindView {
    if 400 <= status <= 499 {
        KindView::ClientError { code: status }
    } else if 500 <= status <= 599 {
        KindView::ServerError { code: status }
    } else {
        KindView::UnknownServerError { code: status }
    }
}

/// What stands in for a body that could not be read as text either. CepLá
/// puts the reader's message there, the other services the parser's.
pub open spec fn unreadable_body(
    source: Source,
    error: Seq<char>,
    reader_error: Seq<char>,
) -> Seq<char> {
    "Failed to produce string body "@ + if source == Source::Cepla {
        reader_error
    } else {
        error
    }
}

/// The failure that a body outside the schema stands for.
pub open spec fn parse_failure(
    source: Source,
    error: Seq<char>,
    text: Result<String, String>,
) -> ErrorView {
    ErrorView {
        source,
        kind: KindView::BodyParsingError {
            error,
            body: match text {
                Ok(body) => body@,
                Err(reader_error) => unreadable_body(source, error, reader_error@),
            },
        },
    }
}

/// What a lookup at `source` ends in, given what the transport brought
/// back. A transport that failed is the library's failure; a response
/// outside the success range is the failure its status stands for; a
/// response without a body is a missing body.
pub open spec fn outcome<A>(source: Source, reply: Reply<A>) -> Result<A, ErrorView> {
    match reply {
        Reply::Unsent => Err(ErrorView { source, kind: KindView::UnexpectedLibraryError }),
        Reply::Answered { status, body } => {
            if !is_success(status) {
                Err(ErrorView { source, kind: status_failure(status) })
            } else {
                match body {
                    None => Err(ErrorView { source, kind: KindView::MissingBodyError }),
                    Some(Body::Parsed(address)) => Ok(address),
                    Some(Body::Unparsed { error, text }) => Err(
                        parse_failure(source, error@, text),
                    ),
                }
            }
        },
    }
}

/// A result with its failure seen through its view.
pub open spec fn seen<A>(result: Result<A, Error>) -> Result<A, ErrorView> {
    match result {
        Ok(value) => Ok(value),
        Err(e) => Err(e@),
    }
}

/// Classifies a response status: `Ok` from 200 to 299, a client error from
/// 400 to 499, a server error from 500 to 599, an unknown server error for
/// any other.
pub fn classify(source: Source, status: u16) -> (r: Result<(), Error>)
    ensures
        r is Ok <==> is_success(status),
        r matches Err(e) ==> e@ == (ErrorView { source, kind: status_failure(status) }),
{
    if 200 <= status && status <= 299 {
        Ok(())
    } else if 400 <= status && status <= 499 {
        Err(Error { source, kind: Kind::ClientError { code: status } })
    } else if 500 <= status && status <= 599 {
        Err(Error { source, kind: Kind::ServerError { code: status } })
    } else {
        Err(Error { source, kind: Kind::UnknownServerError { code: status } })
    }
}

/// Builds the failure for a body that did not match the schema. It carries
/// the parser's message and the body's text; where the text could not be
/// read, a notice with a message takes its place.
pub fn unparsed(source: Source, error: String, text: Result<String, String>) -> (e: Error)
    ensures
        e@ == parse_failure(source, error@, text),
{
    let body = match text {
        Ok(body) => body,
        Err(reader_error) => {
            let mut notice = String::from_str("Failed to produce string body ");
            match source {
                Source::Cepla => notice.append(reader_error.as_str()),
                _ => notice.append(error.as_str()),
            }
            notice
        },
    };
    Error { source, kind: Kind::BodyParsingError { error, body } }
}

/// Decides what a lookup at `source` ends in, given what the transport
/// brought back.
pub fn respond<A>(source: Source, reply: Reply<A>) -> (r: Result<A, Error>)
    ensures
        seen(r) == outcome(source, reply),
{
    match reply {
        Reply::Unsent => Err(Error { source, kind: Kind::UnexpectedLibraryError }),
        Reply::Answered { status, body } => {
            match classify(source, status) {
                Err(e) => Err(e),
                Ok(_) => match body {
                    None => Err(Error { source, kind: Kind::MissingBodyError }),
                    Some(Body::Parsed(address)) => Ok(address),
                    Some(Body::Unparsed { error, text }) => Err(unparsed(source, error, text)),
                },
            }
        },
    }
}

/// The failure reported when no request for `source` could be built.
pub open spec fn unbuilt(source: Source) -> ErrorView {
    ErrorView { source, kind: KindView::UnexpectedLibraryError }
}

/// What a lookup at `source` goes on with once the construction of its
/// request has ended in `finished`: the request, or the failure of the
/// library where none came out.
pub open spec fn built_of<T>(source: Source, finished: Option<Request<T>>) -> Result<
    Request<T>,
    ErrorView,
> {
    match finished {
        Some(request) => Ok(request),
        None => Err(unbuilt(source)),
    }
}

/// Decides how a lookup at `source` goes on once the construction of its
/// request has ended in `finished`: with the request, or with the failure
/// of the library where none came out.
pub fn built<T>(source: Source, finished: Option<Request<T>>) -> (r: Result<Request<T>, Error>)
    ensures
        seen(r) == built_of(source, finished),
{
    match finished {
        Some(request) => Ok(request),
        None => Err(Error { source, kind: Kind::UnexpectedLibraryError }),
    }
}

/// The reply that a transport's answers amount to: `sent` is what sending
/// gave, `body` what reading gave, nothing where the response had no body.
/// The body counts only under a status from 200 to 299, the only case in
/// which it is read.
pub open spec fn observed<H, A>(sent: Option<(u16, H)>, body: Option<Body<A>>) -> Reply<A> {
    match sent {
        None => Reply::Unsent,
        Some((status, _)) => Reply::Answered {
            status,
            body: if is_success(status) {
                body
            } else {
                None
            },
        },
    }
}

/// Performs one call to the service at `source` and decides what it ends
/// in. `send` performs the request and gives the status with the response,
/// or nothing where no response arrived; `read` reads the body of a
/// response, or gives nothing where the response has no body, and is
/// called only under a status from 200 to 299.
pub fn exchange<T, H, A, S, R>(source: Source, request: Request<T>, send: S, read: R) -> (r: Result<
    A,
    Error,
>)
    where
        S: FnOnce(Request<T>) -> Option<(u16, H)>,
        R: FnOnce(H) -> Option<Body<A>>,
    requires
        call_requires(send, (request,)),
        forall|response: H| call_requires(read, (response,)),
    ensures
        exists|sent: Option<(u16, H)>, body: Option<Body<A>>|
            #![trigger observed(sent, body)]
            {
                &&& call_ensures(send, (request,), sent)
                &&& sent matches Some(answer) ==> (is_success(answer.0) ==> call_ensures(
                    read,
                    (answer.1,),
                    body,
                ))
                &&& seen(r) == outcome(source, observed(sent, body))
            },
{
    let sent = send(request);
    let ghost witness = sent;
    match sent {
        None => {
            let r = respond(source, Reply::Unsent);
            proof {
                assert(observed(witness, None::<Body<A>>) == Reply::<A>::Unsent);
            }
            r
        },
        Some((status, response)) => {
            match classify(source, status) {
                Ok(_) => {
                    let body = read(response);
                    let ghost read_body = body;
                    let r = respond(source, Reply::Answered { status, body });
                    proof {
                        assert(observed(witness, read_body) == (Reply::Answered {
                            status,
                            body: read_body,
                        }));
                    }
                    r
                },
                Err(_) => {
                    let r = respond(source, Reply::Answered { status, body: None });
                    proof {
                        assert(observed(witness, None::<Body<A>>) == (Reply::<A>::Answered {
                            status,
                            body: None,
                        }));
                    }
                    r
                },
            }
        },
    }
}

} // verus!
