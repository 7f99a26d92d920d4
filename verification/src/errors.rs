//! The error kinds the request pipeline can produce. The runtime maps them
//! onto its transport errors (invalid data or permission denied).

use vstd::prelude::*;

verus! {

#[derive(Clone, Copy, Debug, PartialEq, Eq, Structural)]
pub enum ProxyError {
    /// An HTTP/2 request whose URI carries no authority, or an authority
    /// with an empty host.
    AuthorityAbsent,
    /// An HTTP/1.1 request without a Host header.
    HostHeaderAbsent,
    /// A Host header with an empty host segment, or a port that does not
    /// parse as a `u16`.
    HostHeaderInvalid,
    /// A forward-proxy request whose URI carries no host.
    UriHostAbsent,
    /// The authentication gate did not accept the request's credentials.
    Unauthenticated,
    /// Failed proxy authentication while the server never asks for auth.
    PermissionDenied,
}

/// A configuration failure, fatal at startup.
#[derive(Clone, Debug, PartialEq, Eq)]
pub enum ConfigError {
    /// A `user:pass` specification whose username or password is empty.
    InvalidUser(String),
    /// An allow-list entry that does not parse as a CIDR network.
    InvalidCidr(String),
}

} // verus!
