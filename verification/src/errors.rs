use vstd::prelude::*;

verus! {

/// Structured error reported by the remote search service: a JSON object
/// with at least a human-readable message; the error code, error type and
/// documentation link are passed through opaquely when present.
#[derive(Debug, Clone)]
pub struct ApiError {
    pub message: String,
    pub code: Option<String>,
    pub error_type: Option<String>,
    pub link: Option<String>,
}

/// Mathematical model of an [`ApiError`]: each text field as a sequence of
/// characters.
pub ghost struct ApiErrorView {
    pub message: Seq<char>,
    pub code: Option<Seq<char>>,
    pub error_type: Option<Seq<char>>,
    pub link: Option<Seq<char>>,
}

impl View for ApiError {
    type V = ApiErrorView;

    open spec fn view(&self) -> ApiErrorView {
        ApiErrorView {
            message: self.message@,
            code: match self.code {
                Some(c) => Some(c@),
                None => None,
            },
            error_type: match self.error_type {
                Some(t) => Some(t@),
                None => None,
            },
            link: match self.link {
                Some(l) => Some(l@),
                None => None,
            },
        }
    }
}

/// HTTP-level failure: the status was in the error range but the body was
/// not a recognizable structured error. Carries the status and the request
/// URL; the message is always absent, since the unparsed body is discarded.
#[derive(Debug, Clone)]
pub struct CommunicationError {
    pub status_code: u16,
    pub message: Option<String>,
    pub url: String,
}

/// Mathematical model of a [`CommunicationError`].
pub ghost struct CommunicationErrorView {
    pub status_code: u16,
    pub message: Option<Seq<char>>,
    pub url: Seq<char>,
}

impl View for CommunicationError {
    type V = CommunicationErrorView;

    open spec fn view(&self) -> CommunicationErrorView {
        CommunicationErrorView {
            status_code: self.status_code,
            message: match self.message {
                Some(m) => Some(m@),
                None => None,
            },
            url: self.url@,
        }
    }
}

/// The closed taxonomy of failures a request can surface.
///
/// - `ApiError`: the remote service explicitly reported a failure with a
///   structured payload.
/// - `CommunicationError`: the status indicated failure (at least 400) but
///   the body was not a recognizable structured error.
/// - `ParseError`: a body could not be decoded into the expected type;
///   carries the decode failure detail.
/// - `EncodingError`: a query or body object could not be serialized;
///   carries the serialization failure detail.
/// - `TransportError`: the underlying network call itself failed; fatal,
///   never retried by this layer.
#[derive(Debug, Clone)]
pub enum Error {
    ApiError(ApiError),
    CommunicationError(CommunicationError),
    ParseError(String),
    EncodingError(String),
    TransportError(String),
}

/// Mathematical model of an [`Error`].
pub ghost enum ErrorView {
    ApiError(ApiErrorView),
    CommunicationError(CommunicationErrorView),
    ParseError(Seq<char>),
    EncodingError(Seq<char>),
    TransportError(Seq<char>),
}

impl View for Error {
    type V = ErrorView;

    open spec fn view(&self) -> ErrorView {
        match self {
            Error::ApiError(e) => ErrorView::ApiError(e@),
            Error::CommunicationError(e) => ErrorView::CommunicationError(e@),
            Error::ParseError(d) => ErrorView::ParseError(d@),
            Error::EncodingError(d) => ErrorView::EncodingError(d@),
            Error::TransportError(d) => ErrorView::TransportError(d@),
        }
    }
}

} // verus!
