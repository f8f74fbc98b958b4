use vstd::prelude::*;

verus! {

/// Every failure that the secure channel core reports.
#[derive(Clone, Copy, Debug, PartialEq, Eq, Structural)]
pub enum ChannelError {
    /// The purpose-key attestation or a transcript signature did not verify.
    AttestationInvalid,
    /// The purpose-key attestation is outside its validity window.
    AttestationExpired,
    /// The trust policy does not accept the verified peer identifier.
    TrustPolicyRejected,
    /// A presented credential failed verification, or a mandatory one is missing.
    CredentialInvalid,
    /// A presented credential was revoked by its authority.
    CredentialRevoked,
    /// A handshake message arrived out of the expected order or state.
    ProtocolViolation,
    /// The handshake deadline elapsed before completion.
    HandshakeTimeout,
    /// The decryptor has already consumed the counter, or it lies outside the window.
    ReplayOrOutOfOrder,
    /// The encryptor has used up every sequence counter of its key.
    CounterExhausted,
    /// A ciphertext failed authenticated decryption.
    DecryptionFailed,
    /// No channel is registered at the given address.
    ChannelNotFound,
    /// The route to the peer is empty.
    RouteResolutionFailed,
}

} // verus!
