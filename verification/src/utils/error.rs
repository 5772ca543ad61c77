use vstd::prelude::*;
use crate::net::net_error::NetError;

verus! {

/// Why a format string's raw text could not be parsed.
#[derive(Clone, Copy, Debug, PartialEq, Eq, Structural)]
pub enum FormatStringError {
    /// A `>` appeared in literal text without a matching escape (`>>`).
    UnpairedClose,
    /// A lone `<` appeared inside a placeholder (write `<<` for a literal `<`).
    LoneOpenInPlaceholder,
    /// The input ended while a placeholder was still open.
    UnterminatedPlaceholder,
}

/// The library's error type. Every failure of request construction or
/// template resolution is reported through one of these variants; nothing
/// is silently swallowed.
#[derive(Debug)]
pub enum Error {
    /// The transport layer rejected the request or a URL did not parse.
    NetError(NetError),
    /// A template referenced a resource name that the registry does not hold.
    NoResFound(String),
    /// A capability's own operation failed; the message describes the cause.
    CapabilityError(String),
    /// A format string's raw text broke the escaping grammar.
    FormatSyntax(FormatStringError),
}

/// The mathematical shape of a transport-boundary error. The URL parse
/// error itself is opaque to the verifier, so only its presence is kept.
pub enum NetErrorView {
    Reqwest(Seq<char>),
    NotAValidUrl,
}

impl View for NetError {
    type V = NetErrorView;

    open spec fn view(&self) -> NetErrorView {
        match self {
            NetError::ReqwestError(msg) => NetErrorView::Reqwest(msg@),
            NetError::NotAValidUrl(_) => NetErrorView::NotAValidUrl,
        }
    }
}

/// The mathematical shape of a library error, so that outcome
/// specifications can name the error a step produces.
pub enum ErrorView {
    NetError(NetErrorView),
    NoResFound(Seq<char>),
    CapabilityError(Seq<char>),
    FormatSyntax(FormatStringError),
}

impl View for Error {
    type V = ErrorView;

    open spec fn view(&self) -> ErrorView {
        match self {
            Error::NetError(ne) => ErrorView::NetError(ne@),
            Error::NoResFound(name) => ErrorView::NoResFound(name@),
            Error::CapabilityError(msg) => ErrorView::CapabilityError(msg@),
            Error::FormatSyntax(e) => ErrorView::FormatSyntax(*e),
        }
    }
}

} // verus!
