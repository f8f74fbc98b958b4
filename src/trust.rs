use vstd::prelude::*;
use crate::error::ChannelError;

verus! {

/// The name of a long-term cryptographic identity.
#[derive(Clone, Copy, Debug, PartialEq, Eq, Structural, Hash)]
pub struct Identifier {
    pub value: u64,
}

/// A purpose key delegated by an identity for secure channels.
#[derive(Clone, Copy, Debug, PartialEq, Eq, Structural)]
pub struct PurposeKey {
    pub subject: Identifier,
    pub key: u64,
}

/// A signed statement binding a purpose key to its issuing identity and to a
/// validity window `[created_at, expires_at)`.
#[derive(Clone, Copy, Debug, PartialEq, Eq, Structural)]
pub struct Attestation {
    pub subject: Identifier,
    pub purpose_key: u64,
    pub created_at: u64,
    pub expires_at: u64,
}

/// The outcome of checking a purpose-key attestation, given whether its
/// signature verified against the identity's current signing key.
pub open spec fn purpose_key_result(
    identifier: Identifier,
    attestation: Attestation,
    signature_valid: bool,
    now: u64,
) -> Result<PurposeKey, ChannelError> {
    if !signature_valid || attestation.subject != identifier {
        Err(ChannelError::AttestationInvalid)
    } else if now < attestation.created_at || attestation.expires_at <= now {
        Err(ChannelError::AttestationExpired)
    } else {
        Ok(PurposeKey { subject: identifier, key: attestation.purpose_key })
    }
}

/// Checks that `attestation` delegates a purpose key from `identifier` and is
/// valid at time `now`.
pub fn verify_purpose_key(
    identifier: Identifier,
    attestation: &Attestation,
    signature_valid: bool,
    now: u64,
) -> (r: Result<PurposeKey, ChannelError>)
    ensures
        r == purpose_key_result(identifier, *attestation, signature_valid, now),
{
    if !signature_valid || attestation.subject != identifier {
        Err(ChannelError::AttestationInvalid)
    } else if now < attestation.created_at || attestation.expires_at <= now {
        Err(ChannelError::AttestationExpired)
    } else {
        Ok(PurposeKey { subject: identifier, key: attestation.purpose_key })
    }
}

/// A predicate over a verified peer identifier.
#[derive(Clone, Debug)]
pub enum TrustPolicy {
    TrustEveryone,
    TrustIdentifier(Identifier),
    TrustMultipleIdentifiers(Vec<Identifier>),
}

/// Whether `policy` accepts `peer`.
pub open spec fn trusts(policy: TrustPolicy, peer: Identifier) -> bool {
    match policy {
        TrustPolicy::TrustEveryone => true,
        TrustPolicy::TrustIdentifier(id) => id == peer,
        TrustPolicy::TrustMultipleIdentifiers(ids) => ids@.contains(peer),
    }
}

/// Evaluates the trust policy once for a verified peer.
pub fn evaluate_trust_policy(policy: &TrustPolicy, peer: Identifier) -> (r: Result<(), ChannelError>)
    ensures
        r is Ok <==> trusts(*policy, peer),
        r is Err ==> r == Err::<(), ChannelError>(ChannelError::TrustPolicyRejected),
{
    let accepted = match policy {
        TrustPolicy::TrustEveryone => true,
        TrustPolicy::TrustIdentifier(id) => *id == peer,
        TrustPolicy::TrustMultipleIdentifiers(ids) => {
            let mut found = false;
            let mut i: usize = 0;
            while i < ids.len()
                invariant
                    i <= ids.len(),
                    found <==> exists|j: int| 0 <= j < i && ids@[j] == peer,
                decreases ids.len() - i,
            {
                if ids[i] == peer {
                    found = true;
                }
                i = i + 1;
            }
            found
        },
    };
    if accepted {
        Ok(())
    } else {
        Err(ChannelError::TrustPolicyRejected)
    }
}

/// What the trust context answered for one presented credential.
#[derive(Clone, Copy, Debug, PartialEq, Eq, Structural)]
pub enum CredentialStatus {
    Valid,
    Invalid,
    Revoked,
}

/// A presented credential together with the trust context's verdict on it.
#[derive(Clone, Copy, Debug, PartialEq, Eq, Structural)]
pub struct PresentedCredential {
    pub subject: Identifier,
    pub status: CredentialStatus,
}

/// The failure that one checked credential causes for `identifier`, if any.
pub open spec fn credential_failure(identifier: Identifier, c: PresentedCredential) -> Option<ChannelError> {
    if c.subject != identifier {
        Some(ChannelError::CredentialInvalid)
    } else {
        match c.status {
            CredentialStatus::Valid => None,
            CredentialStatus::Invalid => Some(ChannelError::CredentialInvalid),
            CredentialStatus::Revoked => Some(ChannelError::CredentialRevoked),
        }
    }
}

/// The first failure among `presented`, scanning from the front.
pub open spec fn first_credential_failure(identifier: Identifier, presented: Seq<PresentedCredential>) -> Option<ChannelError>
    decreases presented.len(),
{
    if presented.len() == 0 {
        None
    } else {
        match credential_failure(identifier, presented[0]) {
            Some(e) => Some(e),
            None => first_credential_failure(identifier, presented.drop_first()),
        }
    }
}

/// The outcome of verifying the credentials presented by `identifier`: the
/// first failing credential decides the error, and an empty list fails only
/// where credentials are mandatory. On success, the number verified.
pub open spec fn credentials_result(
    identifier: Identifier,
    presented: Seq<PresentedCredential>,
    required: bool,
) -> Result<nat, ChannelError> {
    if presented.len() == 0 && required {
        Err(ChannelError::CredentialInvalid)
    } else {
        match first_credential_failure(identifier, presented) {
            Some(e) => Err(e),
            None => Ok(presented.len()),
        }
    }
}

/// Verifies the credentials presented by `identifier`.
pub fn verify_credentials(
    identifier: Identifier,
    presented: &Vec<PresentedCredential>,
    required: bool,
) -> (r: Result<usize, ChannelError>)
    ensures
        match r {
            Ok(n) => credentials_result(identifier, presented@, required) == Ok::<nat, ChannelError>(n as nat),
            Err(e) => credentials_result(identifier, presented@, required) == Err::<nat, ChannelError>(e),
        },
{
    if presented.len() == 0 && required {
        return Err(ChannelError::CredentialInvalid);
    }
    let mut i: usize = 0;
    assert(presented@.subrange(0, presented.len() as int) =~= presented@);
    while i < presented.len()
        invariant
            i <= presented.len(),
            first_credential_failure(identifier, presented@)
                == first_credential_failure(identifier, presented@.subrange(i as int, presented.len() as int)),
        decreases presented.len() - i,
    {
        let c = presented[i];
        assert(presented@.subrange(i as int, presented.len() as int).drop_first()
            =~= presented@.subrange(i + 1 as int, presented.len() as int));
        if c.subject != identifier {
            return Err(ChannelError::CredentialInvalid);
        }
        match c.status {
            CredentialStatus::Valid => {},
            CredentialStatus::Invalid => {
                return Err(ChannelError::CredentialInvalid);
            },
            CredentialStatus::Revoked => {
                return Err(ChannelError::CredentialRevoked);
            },
        }
        i = i + 1;
    }
    assert(presented@.subrange(i as int, presented.len() as int).len() == 0);
    Ok(presented.len())
}

} // verus!
