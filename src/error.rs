//! Error taxonomy of the connection manager and the explicit conversions
//! between its layers.
//!
//! Every error is a plain, cloneable value: failures of lower layers are kept
//! as descriptive strings so that one outcome can be handed to several waiters.

use vstd::prelude::*;
use vstd::string::*;

use crate::outside::yamux_error_text;

verus! {

/// Failure reported by the peer directory collaborator, passed through unchanged.
#[derive(Debug, Clone, PartialEq, Eq)]
pub struct PeerManagerError {
    pub details: String,
}

/// Failure reported by the peer validator, passed through unchanged.
#[derive(Debug, Clone, PartialEq, Eq)]
pub struct PeerValidatorError {
    pub details: String,
}

/// Failure of the identity exchange run on a fresh connection.
#[derive(Debug, Clone, PartialEq, Eq)]
pub struct IdentityProtocolError {
    pub details: String,
}

/// Control-plane failure of an established multiplexer session.
#[derive(Debug, Clone, PartialEq, Eq)]
pub struct YamuxControlError {
    pub details: String,
}

/// Substream-level failure during protocol negotiation.
#[derive(Debug, Clone, PartialEq, Eq)]
pub struct ProtocolError {
    pub details: String,
}

/// Failure of the authentication handshake, as classified by the handshake layer.
#[derive(Debug, Clone, PartialEq, Eq)]
pub enum NoiseError {
    /// A transport or cryptographic-primitive failure.
    SnowError(String),
    /// A failure of the handshake message sequence.
    HandshakeFailed(String),
}

/// Error for the connection manager.
#[derive(Debug, Clone, PartialEq, Eq)]
pub enum ConnectionManagerError {
    PeerManagerError(PeerManagerError),
    PeerConnectionError(String),
    SendToActorFailed,
    ActorRequestCanceled,
    DialConnectFailedAllAddresses,
    ConnectFailedMaximumAttemptsReached,
    YamuxConnectionError(String),
    YamuxUpgradeFailure(String),
    ListenerError { address: String, details: String },
    TransportError { address: String, details: String },
    DialedPublicKeyMismatch { authenticated_pk: String, expected_pk: String },
    InvalidStaticPublicKey,
    NoiseSnowError(String),
    NoiseHandshakeError(String),
    PeerBanned,
    IdentityProtocolError(IdentityProtocolError),
    DialCancelled,
    InvalidMultiaddr(String),
    WireFormatSendFailed,
    ListenerOneshotCancelled,
    PeerValidationError(PeerValidatorError),
    NoContactableAddressesForPeer(String),
    AllPeerAddressesAreExcluded(String),
    YamuxControlError(YamuxControlError),
}

/// Error type for a peer connection handle.
#[derive(Debug, Clone, PartialEq, Eq)]
pub enum PeerConnectionError {
    YamuxControlError(YamuxControlError),
    InternalReplyCancelled,
    /// The connection's internal request channel is closed.
    InternalRequestSendFailed,
    ProtocolError(ProtocolError),
    ProtocolNegotiationTimeout,
}

/// The human-readable description of a peer connection error.
pub open spec fn peer_connection_error_text(e: PeerConnectionError) -> Seq<char> {
    match e {
        PeerConnectionError::YamuxControlError(inner) => "Yamux error: "@ + inner.details@,
        PeerConnectionError::InternalReplyCancelled =>
            "Internal oneshot reply channel was unexpectedly cancelled"@,
        PeerConnectionError::InternalRequestSendFailed =>
            "Failed to send internal request: channel closed"@,
        PeerConnectionError::ProtocolError(inner) => "Protocol error: "@ + inner.details@,
        PeerConnectionError::ProtocolNegotiationTimeout => "Protocol negotiation timeout"@,
    }
}

impl PeerConnectionError {
    /// Describes the error in words.
    pub fn to_message(&self) -> (r: String)
        ensures
            r@ == peer_connection_error_text(*self),
    {
        match self {
            PeerConnectionError::YamuxControlError(inner) => {
                String::from_str("Yamux error: ").concat(inner.details.as_str())
            },
            PeerConnectionError::InternalReplyCancelled => {
                String::from_str("Internal oneshot reply channel was unexpectedly cancelled")
            },
            PeerConnectionError::InternalRequestSendFailed => {
                String::from_str("Failed to send internal request: channel closed")
            },
            PeerConnectionError::ProtocolError(inner) => {
                String::from_str("Protocol error: ").concat(inner.details.as_str())
            },
            PeerConnectionError::ProtocolNegotiationTimeout => {
                String::from_str("Protocol negotiation timeout")
            },
        }
    }
}

impl From<PeerConnectionError> for ConnectionManagerError {
    fn from(err: PeerConnectionError) -> (r: ConnectionManagerError)
        ensures
            r matches ConnectionManagerError::PeerConnectionError(text)
                && text@ == peer_connection_error_text(err),
    {
        ConnectionManagerError::PeerConnectionError(err.to_message())
    }
}

impl vstd::std_specs::convert::FromSpecImpl<PeerConnectionError> for ConnectionManagerError {
    /// The text is built by `to_message`; the impl's own `ensures` states it.
    open spec fn obeys_from_spec() -> bool {
        false
    }

    open spec fn from_spec(v: PeerConnectionError) -> ConnectionManagerError {
        arbitrary()
    }
}

impl From<yamux::ConnectionError> for ConnectionManagerError {
    fn from(err: yamux::ConnectionError) -> (r: ConnectionManagerError)
        ensures
            r matches ConnectionManagerError::YamuxConnectionError(text) && text@.len() > 0,
    {
        ConnectionManagerError::YamuxConnectionError(yamux_error_text(&err))
    }
}

impl vstd::std_specs::convert::FromSpecImpl<yamux::ConnectionError> for ConnectionManagerError {
    /// The text comes from the multiplexer; the impl's own `ensures` states what is known of it.
    open spec fn obeys_from_spec() -> bool {
        false
    }

    open spec fn from_spec(v: yamux::ConnectionError) -> ConnectionManagerError {
        arbitrary()
    }
}

/// The connection manager error that a handshake failure maps to.
pub open spec fn noise_error_mapped(err: NoiseError) -> ConnectionManagerError {
    match err {
        NoiseError::SnowError(e) => ConnectionManagerError::NoiseSnowError(e),
        NoiseError::HandshakeFailed(e) => ConnectionManagerError::NoiseHandshakeError(e),
    }
}

impl From<NoiseError> for ConnectionManagerError {
    fn from(err: NoiseError) -> (r: ConnectionManagerError) {
        match err {
            NoiseError::SnowError(e) => ConnectionManagerError::NoiseSnowError(e),
            NoiseError::HandshakeFailed(e) => ConnectionManagerError::NoiseHandshakeError(e),
        }
    }
}

impl vstd::std_specs::convert::FromSpecImpl<NoiseError> for ConnectionManagerError {
    open spec fn obeys_from_spec() -> bool {
        true
    }

    open spec fn from_spec(v: NoiseError) -> ConnectionManagerError {
        noise_error_mapped(v)
    }
}

impl From<PeerManagerError> for ConnectionManagerError {
    fn from(err: PeerManagerError) -> (r: ConnectionManagerError) {
        ConnectionManagerError::PeerManagerError(err)
    }
}

impl vstd::std_specs::convert::FromSpecImpl<PeerManagerError> for ConnectionManagerError {
    open spec fn obeys_from_spec() -> bool {
        true
    }

    open spec fn from_spec(v: PeerManagerError) -> ConnectionManagerError {
        ConnectionManagerError::PeerManagerError(v)
    }
}

impl From<IdentityProtocolError> for ConnectionManagerError {
    fn from(err: IdentityProtocolError) -> (r: ConnectionManagerError) {
        ConnectionManagerError::IdentityProtocolError(err)
    }
}

impl vstd::std_specs::convert::FromSpecImpl<IdentityProtocolError> for ConnectionManagerError {
    open spec fn obeys_from_spec() -> bool {
        true
    }

    open spec fn from_spec(v: IdentityProtocolError) -> ConnectionManagerError {
        ConnectionManagerError::IdentityProtocolError(v)
    }
}

impl From<PeerValidatorError> for ConnectionManagerError {
    fn from(err: PeerValidatorError) -> (r: ConnectionManagerError) {
        ConnectionManagerError::PeerValidationError(err)
    }
}

impl vstd::std_specs::convert::FromSpecImpl<PeerValidatorError> for ConnectionManagerError {
    open spec fn obeys_from_spec() -> bool {
        true
    }

    open spec fn from_spec(v: PeerValidatorError) -> ConnectionManagerError {
        ConnectionManagerError::PeerValidationError(v)
    }
}

impl From<YamuxControlError> for ConnectionManagerError {
    fn from(err: YamuxControlError) -> (r: ConnectionManagerError) {
        ConnectionManagerError::YamuxControlError(err)
    }
}

impl vstd::std_specs::convert::FromSpecImpl<YamuxControlError> for ConnectionManagerError {
    open spec fn obeys_from_spec() -> bool {
        true
    }

    open spec fn from_spec(v: YamuxControlError) -> ConnectionManagerError {
        ConnectionManagerError::YamuxControlError(v)
    }
}

impl From<YamuxControlError> for PeerConnectionError {
    fn from(err: YamuxControlError) -> (r: PeerConnectionError) {
        PeerConnectionError::YamuxControlError(err)
    }
}

impl vstd::std_specs::convert::FromSpecImpl<YamuxControlError> for PeerConnectionError {
    open spec fn obeys_from_spec() -> bool {
        true
    }

    open spec fn from_spec(v: YamuxControlError) -> PeerConnectionError {
        PeerConnectionError::YamuxControlError(v)
    }
}

impl From<ProtocolError> for PeerConnectionError {
    fn from(err: ProtocolError) -> (r: PeerConnectionError) {
        PeerConnectionError::ProtocolError(err)
    }
}

impl vstd::std_specs::convert::FromSpecImpl<ProtocolError> for PeerConnectionError {
    open spec fn obeys_from_spec() -> bool {
        true
    }

    open spec fn from_spec(v: ProtocolError) -> PeerConnectionError {
        PeerConnectionError::ProtocolError(v)
    }
}

impl From<tokio::time::error::Elapsed> for PeerConnectionError {
    fn from(err: tokio::time::error::Elapsed) -> (r: PeerConnectionError) {
        PeerConnectionError::ProtocolNegotiationTimeout
    }
}

impl vstd::std_specs::convert::FromSpecImpl<tokio::time::error::Elapsed> for PeerConnectionError {
    open spec fn obeys_from_spec() -> bool {
        true
    }

    open spec fn from_spec(v: tokio::time::error::Elapsed) -> PeerConnectionError {
        PeerConnectionError::ProtocolNegotiationTimeout
    }
}

} // verus!
