use lagoinha::error::{Error, Kind, Source};
use lagoinha::text::decimal;

#[test]
fn decimal_renders_numerals() {
    assert_eq!(decimal(0), "0");
    assert_eq!(decimal(7), "7");
    assert_eq!(decimal(10), "10");
    assert_eq!(decimal(404), "404");
    assert_eq!(decimal(500), "500");
    assert_eq!(decimal(1009), "1009");
    assert_eq!(decimal(65535), "65535");
}

#[test]
fn decimal_agrees_with_the_standard_rendering() {
    let mut n: u16 = 0;
    loop {
        assert_eq!(decimal(n), n.to_string());
        if n == u16::MAX {
            break;
        }
        n += 1;
    }
}

#[test]
fn source_names() {
    assert_eq!(Source::Viacep.to_string(), "Viacep");
    assert_eq!(Source::Correios.to_string(), "Correios");
    assert_eq!(Source::Cepla.to_string(), "Cepla");
    assert_eq!(Source::LagoinhaLib.to_string(), "Lagoinha");
}

#[test]
fn every_source_has_a_name_of_its_own() {
    let sources = [Source::Viacep, Source::Correios, Source::Cepla, Source::LagoinhaLib];
    for (i, a) in sources.iter().enumerate() {
        for (j, b) in sources.iter().enumerate() {
            assert_eq!(a.to_string() == b.to_string(), i == j);
        }
    }
    let correios = Error { source: Source::Correios, kind: Kind::ServerError { code: 500 } };
    let cepla = Error { source: Source::Cepla, kind: Kind::ServerError { code: 500 } };
    assert_ne!(correios.to_string(), cepla.to_string());
}

#[test]
fn message_of_unknown_server_error() {
    let e = Error { source: Source::Viacep, kind: Kind::UnknownServerError { code: 302 } };
    assert_eq!(
        e.to_string(),
        "recieved an unknown error from server with code 302 from service Viacep."
    );
}

#[test]
fn message_of_server_error() {
    let e = Error { source: Source::Correios, kind: Kind::ServerError { code: 500 } };
    assert_eq!(e.to_string(), "Recieved a server error 500 from service Correios.");
}

#[test]
fn message_of_client_error() {
    let e = Error { source: Source::Viacep, kind: Kind::ClientError { code: 400 } };
    assert_eq!(e.to_string(), "Recieved a client error 400 from service Viacep.");
}

#[test]
fn message_of_body_parsing_error() {
    let e = Error {
        source: Source::Cepla,
        kind: Kind::BodyParsingError {
            error: "expected value at line 1 column 1".to_string(),
            body: "<html></html>".to_string(),
        },
    };
    assert_eq!(
        e.to_string(),
        "Failed to parse body with error expected value at line 1 column 1 from service Cepla. This should not happen, submit this body in a GitHub issue: <html></html>"
    );
}

#[test]
fn message_of_missing_body_error() {
    let e = Error { source: Source::Cepla, kind: Kind::MissingBodyError };
    assert_eq!(e.to_string(), "Recieved a result without a body from service Cepla.");
}

#[test]
fn message_of_input_error() {
    let e = Error { source: Source::LagoinhaLib, kind: Kind::InputError };
    assert_eq!(
        e.to_string(),
        "The CEP is malformatted. It should be follow this templates: 12345-678 or 12345678"
    );
}

#[test]
fn message_of_unexpected_library_error() {
    let e = Error { source: Source::LagoinhaLib, kind: Kind::UnexpectedLibraryError };
    assert_eq!(
        e.to_string(),
        "Recieved an unexpected error from the library from service Lagoinha. Please send an issue in GitHub."
    );
}

#[test]
fn message_of_all_services_returned_errors() {
    let e = Error {
        source: Source::LagoinhaLib,
        kind: Kind::AllServicesRetunedErrors {
            e1: "one".to_string(),
            e2: "two".to_string(),
            e3: "three".to_string(),
        },
    };
    assert_eq!(
        e.to_string(),
        "All services returned an error. \n: one, \n: two, \n: three"
    );
}

#[test]
fn internal_failure_is_the_librarys_own() {
    assert_eq!(
        Error::internal(),
        Error { source: Source::LagoinhaLib, kind: Kind::UnexpectedLibraryError }
    );
}

#[test]
fn all_failed_puts_each_failure_into_words() {
    let first = Error { source: Source::Viacep, kind: Kind::ClientError { code: 400 } };
    let second = Error { source: Source::Cepla, kind: Kind::MissingBodyError };
    let third = Error { source: Source::Correios, kind: Kind::ServerError { code: 500 } };
    assert_eq!(
        Error::all_failed(&first, &second, &third),
        Error {
            source: Source::LagoinhaLib,
            kind: Kind::AllServicesRetunedErrors {
                e1: "Recieved a client error 400 from service Viacep.".to_string(),
                e2: "Recieved a result without a body from service Cepla.".to_string(),
                e3: "Recieved a server error 500 from service Correios.".to_string(),
            },
        }
    );
}
