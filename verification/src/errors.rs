//! Error taxonomy of the tray core.
//!
//! Host-side failures distinguish transport loss, timeouts, protocol faults
//! (absent property versus malformed reply), malformed registration strings,
//! and out-of-range item lookups, so that callers can react to each kind.
//! Watcher-side registration failures name exactly which field of a
//! registration was rejected.

use vstd::prelude::*;

verus! {

/// A failure observed by the host client or an item proxy.
#[derive(Clone, Copy, Debug, PartialEq, Eq, Structural)]
pub enum HostError {
    /// An item index beyond the current snapshot of registered items.
    OutOfRange { index: usize, len: usize },
    /// A registration string with an empty addressing target.
    MalformedRegistration,
    /// The bus is unreachable or the connection dropped.
    Transport,
    /// A remote call exceeded the configured time bound.
    Timeout,
    /// The remote object exists but does not offer the requested property.
    PropertyAbsent,
    /// The remote object replied with the wrong argument count or types.
    MalformedReply,
}

/// Why the watcher rejected a `RegisterStatusNotifierItem` call.
///
/// The registration string is the sender and the service joined by the
/// delimiter, so a delimiter inside either field, or an empty sender,
/// would make the string ambiguous to split back apart; such values are
/// rejected at registration time.
#[derive(Clone, Copy, Debug, PartialEq, Eq, Structural)]
pub enum RegistrationError {
    /// The caller's bus address was empty.
    EmptySender,
    /// The caller's bus address contains the delimiter character.
    SenderContainsDelimiter,
    /// The offered service name contains the delimiter character.
    ServiceContainsDelimiter,
}

} // verus!
