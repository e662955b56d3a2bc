//! What can go wrong.
use vstd::prelude::*;

verus! {

/// A failure between the library and the gateway.
#[derive(Debug)]
pub struct NetworkError {
    pub op: String,
    pub url: String,
    pub message: String,
    pub timeout: bool,
    pub eof: bool,
}

/// A refusal that the gateway spelled out in its response envelope.
#[derive(Debug)]
pub struct BusinessError {
    pub code: i64,
    pub message: String,
}

/// The error of the library.
#[derive(Debug)]
pub enum Error {
    Other(String),
    Business(BusinessError),
    Network(NetworkError),
}

pub type Result<T> = std::result::Result<T, Error>;

/// What a [`NetworkError`] says.
#[verifier::ext_equal]
pub ghost struct NetworkErrorView {
    pub op: Seq<char>,
    pub url: Seq<char>,
    pub message: Seq<char>,
    pub timeout: bool,
    pub eof: bool,
}

/// What an [`Error`] says.
#[verifier::ext_equal]
pub ghost enum ErrorView {
    Other(Seq<char>),
    Business { code: i64, message: Seq<char> },
    Network(NetworkErrorView),
}

impl View for NetworkError {
    type V = NetworkErrorView;

    open spec fn view(&self) -> NetworkErrorView {
        NetworkErrorView {
            op: self.op@,
            url: self.url@,
            message: self.message@,
            timeout: self.timeout,
            eof: self.eof,
        }
    }
}

impl View for Error {
    type V = ErrorView;

    open spec fn view(&self) -> ErrorView {
        match self {
            Error::Other(message) => ErrorView::Other(message@),
            Error::Business(e) => ErrorView::Business { code: e.code, message: e.message@ },
            Error::Network(e) => ErrorView::Network(e@),
        }
    }
}

impl NetworkError {
    /// A failure that is neither a timeout nor a lost connection.
    pub fn new(op: &str, url: &str, message: &str) -> (error: NetworkError)
        ensures
            error@ == (NetworkErrorView {
                op: op@,
                url: url@,
                message: message@,
                timeout: false,
                eof: false,
            }),
    {
        NetworkError {
            op: op.to_string(),
            url: url.to_string(),
            message: message.to_string(),
            timeout: false,
            eof: false,
        }
    }
}

impl Error {
    /// An error that is nothing but its message.
    pub fn other(message: String) -> (error: Error)
        ensures
            error@ == ErrorView::Other(message@),
    {
        Error::Other(message)
    }

    /// The gateway refused with this code.
    pub fn business(code: i64, message: String) -> (error: Error)
        ensures
            error@ == (ErrorView::Business { code, message: message@ }),
    {
        Error::Business(BusinessError { code, message })
    }

    /// The text of the error.
    pub fn message(&self) -> (message: &str)
        ensures
            message@ == match self@ {
                ErrorView::Other(text) => text,
                ErrorView::Business { code, message } => message,
                ErrorView::Network(e) => e.message,
            },
    {
        match self {
            Error::Other(message) => message.as_str(),
            Error::Business(e) => e.message.as_str(),
            Error::Network(e) => e.message.as_str(),
        }
    }
}

} // verus!
