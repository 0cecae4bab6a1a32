//! The kinds of failure, the phase in which each arises, and the diagnostic
//! that each carries.

use crate::metrics::Phase;
use crate::text::join;
use vstd::prelude::*;
use vstd::string::*;

verus! {

/// What went wrong.
#[derive(Debug, Clone, Copy, PartialEq, Eq, Structural)]
pub enum ErrorKind {
    /// The URL parser rejected the candidate URL.
    UrlNormalization,
    /// The normalized URL did not parse.
    UrlParse,
    /// The parsed URL has no host.
    HostExtraction,
    /// The system's DNS configuration could not be had.
    ResolverInit,
    /// The HTTP client could not be built.
    ClientInit,
    /// The host's name did not resolve.
    Resolution,
    /// Connecting, the TLS handshake or writing the request failed.
    Transport,
    /// The body could not be read to its end.
    BodyRead,
}

impl ErrorKind {
    /// The phase in which a failure of this kind arises.
    pub open spec fn phase(self) -> Phase {
        match self {
            ErrorKind::UrlNormalization => Phase::Prepare,
            ErrorKind::UrlParse => Phase::Prepare,
            ErrorKind::HostExtraction => Phase::Prepare,
            ErrorKind::ResolverInit => Phase::Prepare,
            ErrorKind::ClientInit => Phase::Prepare,
            ErrorKind::Resolution => Phase::DnsLookup,
            ErrorKind::Transport => Phase::TcpHandshake,
            ErrorKind::BodyRead => Phase::ResponseTime,
        }
    }

    /// What the diagnostic of this kind begins with.
    pub open spec fn lead(self) -> Seq<char> {
        match self {
            ErrorKind::UrlNormalization => "URL normalization failed: "@,
            ErrorKind::UrlParse => "Failed to parse URL: "@,
            ErrorKind::HostExtraction => "Could not extract host"@,
            ErrorKind::ResolverInit => "Failed to create DNS resolver: "@,
            ErrorKind::ClientInit => "Failed to create HTTP client: "@,
            ErrorKind::Resolution => "DNS resolution failed: "@,
            ErrorKind::Transport => "Failed to send HTTP request: "@,
            ErrorKind::BodyRead => "Failed to read response body: "@,
        }
    }

    /// The diagnostic of a failure of this kind: the lead, and after it the
    /// detail that the failing part gave. A missing host has no detail.
    pub open spec fn diagnostic_text(self, detail: Seq<char>) -> Seq<char> {
        if self == ErrorKind::HostExtraction {
            self.lead()
        } else {
            self.lead() + detail
        }
    }

    /// The phase in which a failure of this kind arises.
    pub fn phase_of(&self) -> (p: Phase)
        ensures
            p == self.phase(),
    {
        match self {
            ErrorKind::UrlNormalization => Phase::Prepare,
            ErrorKind::UrlParse => Phase::Prepare,
            ErrorKind::HostExtraction => Phase::Prepare,
            ErrorKind::ResolverInit => Phase::Prepare,
            ErrorKind::ClientInit => Phase::Prepare,
            ErrorKind::Resolution => Phase::DnsLookup,
            ErrorKind::Transport => Phase::TcpHandshake,
            ErrorKind::BodyRead => Phase::ResponseTime,
        }
    }

    /// The diagnostic of a failure of this kind with the given detail.
    pub fn diagnostic(&self, detail: &str) -> (s: String)
        ensures
            s@ == self.diagnostic_text(detail@),
    {
        match self {
            ErrorKind::UrlNormalization => join("URL normalization failed: ", detail),
            ErrorKind::UrlParse => join("Failed to parse URL: ", detail),
            ErrorKind::HostExtraction => String::from_str("Could not extract host"),
            ErrorKind::ResolverInit => join("Failed to create DNS resolver: ", detail),
            ErrorKind::ClientInit => join("Failed to create HTTP client: ", detail),
            ErrorKind::Resolution => join("DNS resolution failed: ", detail),
            ErrorKind::Transport => join("Failed to send HTTP request: ", detail),
            ErrorKind::BodyRead => join("Failed to read response body: ", detail),
        }
    }
}

/// A failure: its kind and its diagnostic.
#[derive(Debug, Clone)]
pub struct Failure {
    pub kind: ErrorKind,
    pub message: String,
}

} // verus!
