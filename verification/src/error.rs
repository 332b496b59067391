//! The failures a lookup can end in, and how each is put into words.

use crate::text::{decimal, decimal_digits};
use vstd::prelude::*;
use vstd::string::*;

verus! {

/// The component a failure came from: one of the services, or this library.
#[derive(PartialEq, Eq, Structural, Debug, Clone, Copy)]
pub enum Source {
    Viacep,
    Correios,
    Cepla,
    LagoinhaLib,
}

/// A failure, with the component that raised it.
#[derive(Debug, PartialEq)]
pub struct Error {
    /// The component the failure came from.
    pub source: Source,
    /// What went wrong.
    pub kind: Kind,
}

/// What went wrong.
#[derive(Debug, PartialEq)]
pub enum Kind {
    /// A status outside the success, client-error and server-error ranges.
    UnknownServerError { code: u16 },
    /// A status in the 5xx range.
    ServerError { code: u16 },
    /// A status in the 4xx range.
    ClientError { code: u16 },
    /// The body did not match the expected schema; the parser's message and
    /// what could still be read of the body are kept for diagnosis.
    BodyParsingError { error: String, body: String },
    /// Every service failed; each field holds one failure put into words.
    AllServicesRetunedErrors { e1: String, e2: String, e3: String },
    /// A response arrived, but without a body.
    MissingBodyError,
    /// The postal code is malformed.
    InputError,
    /// No request could be built, the transport failed before a response
    /// arrived, or the library itself misbehaved.
    UnexpectedLibraryError,
}

/// The mathematical content of a [`Kind`].
pub enum KindView {
    UnknownServerError { code: u16 },
    ServerError { code: u16 },
    ClientError { code: u16 },
    BodyParsingError { error: Seq<char>, body: Seq<char> },
    AllServicesRetunedErrors { e1: Seq<char>, e2: Seq<char>, e3: Seq<char> },
    MissingBodyError,
    InputError,
    UnexpectedLibraryError,
}

/// The mathematical content of an [`Error`].
pub struct ErrorView {
    pub source: Source,
    pub kind: KindView,
}

impl View for Kind {
    type V = KindView;

    open spec fn view(&self) -> KindView {
        match *self {
            Kind::UnknownServerError { code } => KindView::UnknownServerError { code },
            Kind::ServerError { code } => KindView::ServerError { code },
            Kind::ClientError { code } => KindView::ClientError { code },
            Kind::BodyParsingError { error, body } => KindView::BodyParsingError {
                error: error@,
                body: body@,
            },
            Kind::AllServicesRetunedErrors { e1, e2, e3 } => KindView::AllServicesRetunedErrors {
                e1: e1@,
                e2: e2@,
                e3: e3@,
            },
            Kind::MissingBodyError => KindView::MissingBodyError,
            Kind::InputError => KindView::InputError,
            Kind::UnexpectedLibraryError => KindView::UnexpectedLibraryError,
        }
    }
}

impl View for Error {
    type V = ErrorView;

    open spec fn view(&self) -> ErrorView {
        ErrorView { source: self.source, kind: self.kind@ }
    }
}

impl Source {
    /// The name under which a component appears in messages: its own.
    pub open spec fn name(self) -> Seq<char> {
        match self {
            Source::Viacep => "Viacep"@,
            Source::Correios => "Correios"@,
            Source::Cepla => "Cepla"@,
            Source::LagoinhaLib => "Lagoinha"@,
        }
    }

    /// The name under which this component appears in messages.
    pub fn to_string(&self) -> (s: String)
        ensures
            s@ == self.name(),
    {
        match self {
            Source::Viacep => String::from_str("Viacep"),
            Source::Correios => String::from_str("Correios"),
            Source::Cepla => String::from_str("Cepla"),
            Source::LagoinhaLib => String::from_str("Lagoinha"),
        }
    }
}

/// Two different components never go by the same name, so a message
/// tells which one a failure came from.
pub proof fn lemma_names_tell_sources_apart(a: Source, b: Source)
    requires
        a != b,
    ensures
        a.name() != b.name(),
{
    reveal_strlit("Viacep");
    reveal_strlit("Correios");
    reveal_strlit("Cepla");
    reveal_strlit("Lagoinha");
    assert("Viacep"@.len() == 6);
    assert("Cepla"@.len() == 5);
    assert("Correios"@.len() == 8 && "Correios"@[0] == 'C');
    assert("Lagoinha"@.len() == 8 && "Lagoinha"@[0] == 'L');
}

impl ErrorView {
    /// The failure put into words.
    pub open spec fn message(self) -> Seq<char> {
        match self.kind {
            KindView::UnknownServerError { code } => {
                "recieved an unknown error from server with code "@ + decimal_digits(code as nat)
                    + " from service "@ + self.source.name() + "."@
            },
            KindView::ServerError { code } => {
                "Recieved a server error "@ + decimal_digits(code as nat) + " from service "@
                    + self.source.name() + "."@
            },
            KindView::ClientError { code } => {
                "Recieved a client error "@ + decimal_digits(code as nat) + " from service "@
                    + self.source.name() + "."@
            },
            KindView::BodyParsingError { error, body } => {
                "Failed to parse body with error "@ + error + " from service "@
                    + self.source.name()
                    + ". This should not happen, submit this body in a GitHub issue: "@ + body
            },
            KindView::MissingBodyError => {
                "Recieved a result without a body from service "@ + self.source.name() + "."@
            },
            KindView::InputError => {
                "The CEP is malformatted. It should be follow this templates: 12345-678 or 12345678"@
            },
            KindView::UnexpectedLibraryError => {
                "Recieved an unexpected error from the library from service "@
                    + self.source.name() + ". Please send an issue in GitHub."@
            },
            KindView::AllServicesRetunedErrors { e1, e2, e3 } => {
                "All services returned an error. \n: "@ + e1 + ", \n: "@ + e2 + ", \n: "@ + e3
            },
        }
    }

    /// The failure of the library itself.
    pub open spec fn internal() -> ErrorView {
        ErrorView { source: Source::LagoinhaLib, kind: KindView::UnexpectedLibraryError }
    }

    /// The failure of all three services, made of the three failures put
    /// into words in the order given.
    pub open spec fn all_failed(first: ErrorView, second: ErrorView, third: ErrorView) -> ErrorView {
        ErrorView {
            source: Source::LagoinhaLib,
            kind: KindView::AllServicesRetunedErrors {
                e1: first.message(),
                e2: second.message(),
                e3: third.message(),
            },
        }
    }
}

impl Error {
    /// The failure of the library itself.
    pub fn internal() -> (e: Error)
        ensures
            e@ == ErrorView::internal(),
    {
        Error { source: Source::LagoinhaLib, kind: Kind::UnexpectedLibraryError }
    }

    /// The failure of all three services, carrying each of their failures
    /// put into words.
    pub fn all_failed(first: &Error, second: &Error, third: &Error) -> (e: Error)
        ensures
            e@ == ErrorView::all_failed(first@, second@, third@),
    {
        Error {
            source: Source::LagoinhaLib,
            kind: Kind::AllServicesRetunedErrors {
                e1: first.to_string(),
                e2: second.to_string(),
                e3: third.to_string(),
            },
        }
    }

    /// Puts the failure into words.
    pub fn to_string(&self) -> (s: String)
        ensures
            s@ == self@.message(),
    {
        match &self.kind {
            Kind::UnknownServerError { code } => {
                let mut s = String::from_str("recieved an unknown error from server with code ");
                s.append(decimal(*code).as_str());
                s.append(" from service ");
                s.append(self.source.to_string().as_str());
                s.append(".");
                s
            },
            Kind::ServerError { code } => {
                let mut s = String::from_str("Recieved a server error ");
                s.append(decimal(*code).as_str());
                s.append(" from service ");
                s.append(self.source.to_string().as_str());
                s.append(".");
                s
            },
            Kind::ClientError { code } => {
                let mut s = String::from_str("Recieved a client error ");
                s.append(decimal(*code).as_str());
                s.append(" from service ");
                s.append(self.source.to_string().as_str());
                s.append(".");
                s
            },
            Kind::BodyParsingError { error, body } => {
                let mut s = String::from_str("Failed to parse body with error ");
                s.append(error.as_str());
                s.append(" from service ");
                s.append(self.source.to_string().as_str());
                s.append(". This should not happen, submit this body in a GitHub issue: ");
                s.append(body.as_str());
                s
            },
            Kind::MissingBodyError => {
                let mut s = String::from_str("Recieved a result without a body from service ");
                s.append(self.source.to_string().as_str());
                s.append(".");
                s
            },
            Kind::InputError => {
                String::from_str(
                    "The CEP is malformatted. It should be follow this templates: 12345-678 or 12345678",
                )
            },
            Kind::UnexpectedLibraryError => {
                let mut s = String::from_str(
                    "Recieved an unexpected error from the library from service ",
                );
                s.append(self.source.to_string().as_str());
                s.append(". Please send an issue in GitHub.");
                s
            },
            Kind::AllServicesRetunedErrors { e1, e2, e3 } => {
                let mut s = String::from_str("All services returned an error. \n: ");
                s.append(e1.as_str());
                s.append(", \n: ");
                s.append(e2.as_str());
                s.append(", \n: ");
                s.append(e3.as_str());
                s
            },
        }
    }
}

} // verus!
