//! The ways a request can be turned away, and how each one is reported.

use vstd::prelude::*;

verus! {

/// Why a request was rejected. Every rejection ends the request: nothing is
/// retried and no partial response has been sent when one is raised.
#[derive(Clone, Copy, Debug, PartialEq, Eq, Structural)]
pub enum RouteError {
    /// The host does not belong to the base domain.
    InvalidDomain,
    /// The root site was asked with a method other than `GET` or `HEAD`.
    MethodNotAllowed,
    /// No backend is configured for the subdomain, or the static file could
    /// not be read. The two causes are deliberately not told apart.
    NotFound,
}

impl RouteError {
    /// The HTTP status code that reports this rejection.
    pub open spec fn status_code(self) -> u16 {
        match self {
            RouteError::InvalidDomain => 400,
            RouteError::MethodNotAllowed => 405,
            RouteError::NotFound => 404,
        }
    }

    /// The short human-readable reason sent along with the status.
    pub open spec fn reason_text(self) -> Seq<char> {
        match self {
            RouteError::InvalidDomain => "invalid domain"@,
            RouteError::MethodNotAllowed => "method not allowed"@,
            RouteError::NotFound => "not found"@,
        }
    }

    /// The HTTP status code that reports this rejection.
    pub fn status(&self) -> (code: u16)
        ensures
            code == self.status_code(),
    {
        match self {
            RouteError::InvalidDomain => 400,
            RouteError::MethodNotAllowed => 405,
            RouteError::NotFound => 404,
        }
    }

    /// The short human-readable reason sent along with the status.
    pub fn reason(&self) -> (text: &'static str)
        ensures
            text@ == self.reason_text(),
    {
        match self {
            RouteError::InvalidDomain => "invalid domain",
            RouteError::MethodNotAllowed => "method not allowed",
            RouteError::NotFound => "not found",
        }
    }
}

} // verus!
