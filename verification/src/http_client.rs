//! Requests to a registry, and what comes back.
//!
//! The library describes the `GET` that is to be sent and judges what the
//! transport reports of it. Sending is the part of a backend, which is chosen
//! by one of the marker types below.

use crate::error::{TransportError, TransportErrorKind, TransportErrorView};
use crate::time::Duration;
use vstd::prelude::*;

verus! {

/// Chooses the backend built on `ureq`.
#[derive(Debug, Clone, Copy, PartialEq, Eq, Structural)]
pub struct UreqHttpClient;

/// Chooses the backend built on `reqwest`.
#[derive(Debug, Clone, Copy, PartialEq, Eq, Structural)]
pub struct ReqwestHttpClient;

/// Stands where no backend was chosen. Its backend does not send anything:
/// it stops the program with a message that asks for a choice.
#[derive(Debug, Clone, Copy, PartialEq, Eq, Structural)]
pub struct UndefinedHttpClient;

/// An HTTP client that is being set up for one request.
pub struct GenericHttpClient<T> {
    inner: T,
    timeout: Duration,
    headers: Option<(String, String)>,
}

/// One `GET`, fully described.
pub struct Request<T> {
    /// The backend that is to send it.
    pub client: T,
    pub url: String,
    /// The time allowed for the whole request, connecting and reading.
    pub timeout: Duration,
    /// The header to send along, as name and value.
    pub headers: Option<(String, String)>,
}

/// What a `Request` asks for: its address, its time limit in nanoseconds and
/// its header.
pub struct RequestView {
    pub url: Seq<char>,
    pub timeout: nat,
    pub headers: Option<(Seq<char>, Seq<char>)>,
}

/// A header as text.
pub open spec fn header_view(headers: Option<(String, String)>) -> Option<(Seq<char>, Seq<char>)> {
    match headers {
        Some((name, value)) => Some((name@, value@)),
        None => None,
    }
}

impl<T> View for Request<T> {
    type V = RequestView;

    open spec fn view(&self) -> RequestView {
        RequestView { url: self.url@, timeout: self.timeout@, headers: header_view(self.headers) }
    }
}

impl<T> View for GenericHttpClient<T> {
    type V = RequestView;

    /// The request that the client would send to the empty address.
    closed spec fn view(&self) -> RequestView {
        RequestView {
            url: Seq::<char>::empty(),
            timeout: self.timeout@,
            headers: header_view(self.headers),
        }
    }
}

/// A client of the backend `client` that allows `timeout` for a request and
/// sends no header.
pub fn new<T>(client: T, timeout: Duration) -> (http_client: GenericHttpClient<T>)
    ensures
        http_client@ == (RequestView {
            url: Seq::<char>::empty(),
            timeout: timeout@,
            headers: None,
        }),
        http_client.backend() == client,
{
    GenericHttpClient { inner: client, timeout, headers: None }
}

impl<T> GenericHttpClient<T> {
    /// The backend that the client was made for.
    pub closed spec fn backend(self) -> T {
        self.inner
    }

    /// The same client, sending the header `headers.0: headers.1` and no other.
    pub fn headers(self, headers: (&str, &str)) -> (http_client: GenericHttpClient<T>)
        ensures
            http_client@ == (RequestView {
                headers: Some((headers.0@, headers.1@)),
                ..self@
            }),
            http_client.backend() == self.backend(),
    {
        GenericHttpClient {
            inner: self.inner,
            timeout: self.timeout,
            headers: Some((headers.0.to_owned(), headers.1.to_owned())),
        }
    }

    /// The `GET` of `url` with the time limit and the header of this client.
    pub fn get(self, url: &str) -> (request: Request<T>)
        ensures
            request@ == (RequestView { url: url@, ..self@ }),
            request.client == self.backend(),
    {
        Request {
            client: self.inner,
            url: url.to_owned(),
            timeout: self.timeout,
            headers: self.headers,
        }
    }
}

/// What the transport reports of one request.
pub enum Fetched<T> {
    /// The registry answered with `status`. `body` is what its body decoded
    /// to, or the decoder's complaint.
    Answered { status: u16, body: Result<T, String> },
    /// No answer came; the string says why.
    Unanswered(String),
}

impl<T> Fetched<T> {
    /// The body that a request fetched, if it fetched one: the decoded body
    /// of an answer with a status of 200 to 299.
    pub open spec fn body(self) -> Option<T> {
        match self {
            Fetched::Answered { status, body: Ok(body) } => if 200 <= status <= 299 {
                Some(body)
            } else {
                None
            },
            _ => None,
        }
    }

    /// Why a request fetched no body. A status outside 200 to 299 is named
    /// before anything else; then comes a body that did not decode.
    pub open spec fn failure(self) -> TransportErrorView {
        match self {
            Fetched::Answered { status, body } => if !(200 <= status <= 299) {
                TransportErrorView {
                    kind: TransportErrorKind::Status(status),
                    message: Seq::<char>::empty(),
                }
            } else {
                match body {
                    Ok(_) => TransportErrorView {
                        kind: TransportErrorKind::Malformed,
                        message: Seq::<char>::empty(),
                    },
                    Err(complaint) => TransportErrorView {
                        kind: TransportErrorKind::Malformed,
                        message: complaint@,
                    },
                }
            },
            Fetched::Unanswered(reason) => TransportErrorView {
                kind: TransportErrorKind::Unreachable,
                message: reason@,
            },
        }
    }

    /// The fetched body, or the error that stands for its absence.
    pub fn settle(self) -> (r: Result<T, TransportError>)
        ensures
            match r {
                Ok(body) => self.body() == Some(body),
                Err(e) => self.body() is None && e@ == self.failure(),
            },
    {
        match self {
            Fetched::Answered { status, body } => {
                if status < 200 || status > 299 {
                    Err(TransportError { kind: TransportErrorKind::Status(status), message: String::new() })
                } else {
                    match body {
                        Ok(body) => Ok(body),
                        Err(complaint) => Err(
                            TransportError { kind: TransportErrorKind::Malformed, message: complaint },
                        ),
                    }
                }
            },
            Fetched::Unanswered(reason) => Err(
                TransportError { kind: TransportErrorKind::Unreachable, message: reason },
            ),
        }
    }
}

} // verus!
