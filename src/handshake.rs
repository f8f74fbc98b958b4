use vstd::prelude::*;
use crate::address::Role;
use crate::error::ChannelError;
use crate::trust::{
    credentials_result, evaluate_trust_policy, purpose_key_result, trusts, verify_credentials,
    verify_purpose_key, Attestation, PresentedCredential, Identifier, TrustPolicy,
};

verus! {

/// An ephemeral public key of the key agreement.
#[derive(Clone, Copy, Debug)]
pub struct PublicKey {
    pub bytes: [u8; 32],
}

/// The identity proof that one side presents: its identifier, the attestation
/// of its purpose key, whether the attestation's signature and the signature
/// over the running transcript verified, and its credentials with the trust
/// context's verdicts.
#[derive(Clone, Debug)]
pub struct IdentityProof {
    pub identifier: Identifier,
    pub attestation: Attestation,
    pub attestation_signature_valid: bool,
    pub transcript_signature_valid: bool,
    pub credentials: Vec<PresentedCredential>,
}

/// What reaches a running handshake: a protocol message, or a clock tick.
pub enum HandshakeMessage {
    Message1 { ephemeral: PublicKey },
    Message2 { ephemeral: PublicKey, proof: IdentityProof },
    Message3 { proof: IdentityProof },
    Tick,
}

/// What the worker running a handshake must do next.
#[derive(Clone, Copy, Debug)]
pub enum HandshakeAction {
    SendMessage1 { ephemeral: PublicKey },
    SendMessage2 { ephemeral: PublicKey },
    SendMessage3AndComplete { peer: Identifier },
    Complete { peer: Identifier },
    Wait,
    Fail { error: ChannelError },
}

/// The states of the handshake state machine.
#[derive(Clone, Copy, Debug, PartialEq, Eq, Structural)]
pub enum HandshakeStatus {
    Start,
    SentMessage1,
    SentMessage2,
    Completed,
    Failed,
}

/// The fixed configuration of one handshake.
#[derive(Clone, Debug)]
pub struct HandshakeConfig {
    pub role: Role,
    pub identifier: Identifier,
    pub trust_policy: TrustPolicy,
    pub credentials_required: bool,
    pub timeout: Option<u64>,
}

/// One running handshake, owned by a single worker.
pub struct Handshake {
    pub config: HandshakeConfig,
    pub status: HandshakeStatus,
    pub own_ephemeral: PublicKey,
    pub peer_ephemeral: Option<PublicKey>,
    pub peer: Option<Identifier>,
    pub deadline: Option<u64>,
    pub error: Option<ChannelError>,
}

/// `now + timeout`, held at the largest time where it would not fit.
pub open spec fn deadline_after(now: u64, timeout: u64) -> u64 {
    if now + timeout > u64::MAX {
        u64::MAX
    } else {
        (now + timeout) as u64
    }
}

/// The outcome of verifying the peer's identity proof under `config`: its
/// attestation, its transcript signature, the trust policy, its credentials.
pub open spec fn peer_result(config: HandshakeConfig, proof: IdentityProof, now: u64) -> Result<Identifier, ChannelError> {
    match purpose_key_result(proof.identifier, proof.attestation, proof.attestation_signature_valid, now) {
        Err(e) => Err(e),
        Ok(_) => if !proof.transcript_signature_valid {
            Err(ChannelError::AttestationInvalid)
        } else if !trusts(config.trust_policy, proof.identifier) {
            Err(ChannelError::TrustPolicyRejected)
        } else {
            match credentials_result(proof.identifier, proof.credentials@, config.credentials_required) {
                Err(e) => Err(e),
                Ok(_) => Ok(proof.identifier),
            }
        },
    }
}

/// Verifies the peer's identity proof; the presented run in the order that
/// `peer_result` gives, and the first failure is terminal.
pub fn verify_identity_proof(config: &HandshakeConfig, proof: &IdentityProof, now: u64) -> (r: Result<Identifier, ChannelError>)
    ensures
        r == peer_result(*config, *proof, now),
{
    match verify_purpose_key(proof.identifier, &proof.attestation, proof.attestation_signature_valid, now) {
        Err(e) => Err(e),
        Ok(_) => {
            if !proof.transcript_signature_valid {
                Err(ChannelError::AttestationInvalid)
            } else {
                match evaluate_trust_policy(&config.trust_policy, proof.identifier) {
                    Err(e) => Err(e),
                    Ok(()) => match verify_credentials(proof.identifier, &proof.credentials, config.credentials_required) {
                        Err(e) => Err(e),
                        Ok(_) => Ok(proof.identifier),
                    },
                }
            }
        },
    }
}

impl Handshake {
    /// A handshake that will take no further message.
    pub open spec fn is_terminal(self) -> bool {
        self.status == HandshakeStatus::Completed || self.status == HandshakeStatus::Failed
    }

    /// The deadline has passed at `now`.
    pub open spec fn timed_out(self, now: u64) -> bool {
        match self.deadline {
            Some(d) => d <= now,
            None => false,
        }
    }

    /// The state's invariant: the status agrees with the role, only a
    /// completed handshake knows its peer, it also knows the peer's ephemeral
    /// key, and a failed one knows its error.
    pub open spec fn wf(self) -> bool {
        &&& self.config.role == Role::Initiator ==> self.status != HandshakeStatus::Start
            && self.status != HandshakeStatus::SentMessage2
        &&& self.config.role == Role::Responder ==> self.status != HandshakeStatus::SentMessage1
        &&& self.status == HandshakeStatus::Completed ==> self.peer is Some && self.peer_ephemeral is Some
        &&& self.status != HandshakeStatus::Completed ==> self.peer is None
        &&& self.status == HandshakeStatus::SentMessage2 ==> self.peer_ephemeral is Some
        &&& self.status == HandshakeStatus::Failed <==> self.error is Some
    }

    /// The ephemeral key of the initiator, as this side knows it.
    pub open spec fn initiator_ephemeral(self) -> Option<PublicKey> {
        match self.config.role {
            Role::Initiator => Some(self.own_ephemeral),
            Role::Responder => self.peer_ephemeral,
        }
    }

    /// The ephemeral key of the responder, as this side knows it.
    pub open spec fn responder_ephemeral(self) -> Option<PublicKey> {
        match self.config.role {
            Role::Initiator => self.peer_ephemeral,
            Role::Responder => Some(self.own_ephemeral),
        }
    }

    /// The state that a terminal failure with `error` leaves.
    pub open spec fn failed(self, error: ChannelError) -> Handshake {
        Handshake { status: HandshakeStatus::Failed, error: Some(error), ..self }
    }

    /// The state and the first action of a new handshake started at `now`.
    pub open spec fn start_spec(config: HandshakeConfig, own_ephemeral: PublicKey, now: u64) -> (Handshake, HandshakeAction) {
        let deadline = match config.timeout {
            Some(t) => Some(deadline_after(now, t)),
            None => None,
        };
        match config.role {
            Role::Initiator => (
                Handshake {
                    config,
                    status: HandshakeStatus::SentMessage1,
                    own_ephemeral,
                    peer_ephemeral: None,
                    peer: None,
                    deadline,
                    error: None,
                },
                HandshakeAction::SendMessage1 { ephemeral: own_ephemeral },
            ),
            Role::Responder => (
                Handshake {
                    config,
                    status: HandshakeStatus::Start,
                    own_ephemeral,
                    peer_ephemeral: None,
                    peer: None,
                    deadline,
                    error: None,
                },
                HandshakeAction::Wait,
            ),
        }
    }

    /// One transition of the state machine. A message that does not fit the
    /// role and state is rejected with `ProtocolViolation` and changes
    /// nothing; any verification failure and an elapsed deadline are terminal.
    pub open spec fn step_spec(self, now: u64, msg: HandshakeMessage) -> (Handshake, Result<HandshakeAction, ChannelError>) {
        if self.is_terminal() {
            (self, Err(ChannelError::ProtocolViolation))
        } else if self.timed_out(now) {
            (self.failed(ChannelError::HandshakeTimeout), Ok(HandshakeAction::Fail { error: ChannelError::HandshakeTimeout }))
        } else {
            match msg {
                HandshakeMessage::Tick => (self, Ok(HandshakeAction::Wait)),
                HandshakeMessage::Message1 { ephemeral } =>
                    if self.config.role == Role::Responder && self.status == HandshakeStatus::Start {
                        (
                            Handshake { status: HandshakeStatus::SentMessage2, peer_ephemeral: Some(ephemeral), ..self },
                            Ok(HandshakeAction::SendMessage2 { ephemeral: self.own_ephemeral }),
                        )
                    } else {
                        (self, Err(ChannelError::ProtocolViolation))
                    },
                HandshakeMessage::Message2 { ephemeral, proof } =>
                    if self.config.role == Role::Initiator && self.status == HandshakeStatus::SentMessage1 {
                        match peer_result(self.config, proof, now) {
                            Err(e) => (self.failed(e), Ok(HandshakeAction::Fail { error: e })),
                            Ok(id) => (
                                Handshake {
                                    status: HandshakeStatus::Completed,
                                    peer_ephemeral: Some(ephemeral),
                                    peer: Some(id),
                                    ..self
                                },
                                Ok(HandshakeAction::SendMessage3AndComplete { peer: id }),
                            ),
                        }
                    } else {
                        (self, Err(ChannelError::ProtocolViolation))
                    },
                HandshakeMessage::Message3 { proof } =>
                    if self.config.role == Role::Responder && self.status == HandshakeStatus::SentMessage2 {
                        match peer_result(self.config, proof, now) {
                            Err(e) => (self.failed(e), Ok(HandshakeAction::Fail { error: e })),
                            Ok(id) => (
                                Handshake { status: HandshakeStatus::Completed, peer: Some(id), ..self },
                                Ok(HandshakeAction::Complete { peer: id }),
                            ),
                        }
                    } else {
                        (self, Err(ChannelError::ProtocolViolation))
                    },
            }
        }
    }

    /// Starts a handshake for `config` at time `now` with the given ephemeral
    /// key; an initiator sends its ephemeral key at once.
    pub fn new(config: HandshakeConfig, own_ephemeral: PublicKey, now: u64) -> (r: (Handshake, HandshakeAction))
        ensures
            r == Handshake::start_spec(config, own_ephemeral, now),
            r.0.wf(),
    {
        let deadline = match config.timeout {
            Some(t) => if t > u64::MAX - now {
                Some(u64::MAX)
            } else {
                Some(now + t)
            },
            None => None,
        };
        match config.role {
            Role::Initiator => (
                Handshake {
                    config,
                    status: HandshakeStatus::SentMessage1,
                    own_ephemeral,
                    peer_ephemeral: None,
                    peer: None,
                    deadline,
                    error: None,
                },
                HandshakeAction::SendMessage1 { ephemeral: own_ephemeral },
            ),
            Role::Responder => (
                Handshake {
                    config,
                    status: HandshakeStatus::Start,
                    own_ephemeral,
                    peer_ephemeral: None,
                    peer: None,
                    deadline,
                    error: None,
                },
                HandshakeAction::Wait,
            ),
        }
    }

    /// Records a terminal failure.
    fn fail(&mut self, error: ChannelError) -> (r: Result<HandshakeAction, ChannelError>)
        ensures
            *final(self) == old(self).failed(error),
            r == Ok::<HandshakeAction, ChannelError>(HandshakeAction::Fail { error }),
    {
        self.status = HandshakeStatus::Failed;
        self.error = Some(error);
        Ok(HandshakeAction::Fail { error })
    }

    /// Feeds one message, received at time `now`, to the state machine.
    pub fn step(&mut self, now: u64, msg: HandshakeMessage) -> (r: Result<HandshakeAction, ChannelError>)
        requires
            old(self).wf(),
        ensures
            (*final(self), r) == old(self).step_spec(now, msg),
            final(self).wf(),
    {
        if self.status == HandshakeStatus::Completed || self.status == HandshakeStatus::Failed {
            return Err(ChannelError::ProtocolViolation);
        }
        let expired = match self.deadline {
            Some(d) => d <= now,
            None => false,
        };
        if expired {
            return self.fail(ChannelError::HandshakeTimeout);
        }
        match msg {
            HandshakeMessage::Tick => Ok(HandshakeAction::Wait),
            HandshakeMessage::Message1 { ephemeral } => {
                if self.config.role == Role::Responder && self.status == HandshakeStatus::Start {
                    self.status = HandshakeStatus::SentMessage2;
                    self.peer_ephemeral = Some(ephemeral);
                    Ok(HandshakeAction::SendMessage2 { ephemeral: self.own_ephemeral })
                } else {
                    Err(ChannelError::ProtocolViolation)
                }
            },
            HandshakeMessage::Message2 { ephemeral, proof } => {
                if self.config.role == Role::Initiator && self.status == HandshakeStatus::SentMessage1 {
                    match verify_identity_proof(&self.config, &proof, now) {
                        Err(e) => self.fail(e),
                        Ok(id) => {
                            self.status = HandshakeStatus::Completed;
                            self.peer_ephemeral = Some(ephemeral);
                            self.peer = Some(id);
                            Ok(HandshakeAction::SendMessage3AndComplete { peer: id })
                        },
                    }
                } else {
                    Err(ChannelError::ProtocolViolation)
                }
            },
            HandshakeMessage::Message3 { proof } => {
                if self.config.role == Role::Responder && self.status == HandshakeStatus::SentMessage2 {
                    match verify_identity_proof(&self.config, &proof, now) {
                        Err(e) => self.fail(e),
                        Ok(id) => {
                            self.status = HandshakeStatus::Completed;
                            self.peer = Some(id);
                            Ok(HandshakeAction::Complete { peer: id })
                        },
                    }
                } else {
                    Err(ChannelError::ProtocolViolation)
                }
            },
        }
    }
}

/// No deadline of a handshake started at `start` under `config` has passed at `now`.
pub open spec fn before_deadline(config: HandshakeConfig, start: u64, now: u64) -> bool {
    match config.timeout {
        Some(t) => now < deadline_after(start, t),
        None => true,
    }
}

/// Where each side's proof satisfies the other side's attestation presented,
/// trust policy and credential requirements, and no deadline passes, the three
/// messages complete both handshakes: each side learns the other's
/// identifier, and both hold the same pair of ephemeral keys, which is what
/// the session secret is derived from.
pub proof fn lemma_handshake_completes(
    ci: HandshakeConfig,
    cr: HandshakeConfig,
    ei: PublicKey,
    er: PublicKey,
    proof_i: IdentityProof,
    proof_r: IdentityProof,
    t0: u64,
    t1: u64,
    t2: u64,
    t3: u64,
)
    requires
        ci.role == Role::Initiator,
        cr.role == Role::Responder,
        peer_result(ci, proof_r, t2) is Ok,
        peer_result(cr, proof_i, t3) is Ok,
        proof_r.identifier == cr.identifier,
        proof_i.identifier == ci.identifier,
        before_deadline(ci, t0, t2),
        before_deadline(cr, t0, t1),
        before_deadline(cr, t0, t3),
    ensures
        ({
            let (i0, _) = Handshake::start_spec(ci, ei, t0);
            let (r0, _) = Handshake::start_spec(cr, er, t0);
            let (r1, a1) = r0.step_spec(t1, HandshakeMessage::Message1 { ephemeral: ei });
            let (i1, a2) = i0.step_spec(t2, HandshakeMessage::Message2 { ephemeral: er, proof: proof_r });
            let (r2, a3) = r1.step_spec(t3, HandshakeMessage::Message3 { proof: proof_i });
            &&& a1 == Ok::<HandshakeAction, ChannelError>(HandshakeAction::SendMessage2 { ephemeral: er })
            &&& a2 == Ok::<HandshakeAction, ChannelError>(HandshakeAction::SendMessage3AndComplete { peer: cr.identifier })
            &&& a3 == Ok::<HandshakeAction, ChannelError>(HandshakeAction::Complete { peer: ci.identifier })
            &&& i1.status == HandshakeStatus::Completed
            &&& r2.status == HandshakeStatus::Completed
            &&& i1.peer == Some(cr.identifier)
            &&& r2.peer == Some(ci.identifier)
            &&& i1.initiator_ephemeral() == r2.initiator_ephemeral()
            &&& i1.responder_ephemeral() == r2.responder_ephemeral()
        }),
{
}

/// An initiator that receives Message 2 carrying a correctly signed
/// attestation from the claimed identity that has expired at `now` fails with
/// `AttestationExpired` and completes nothing.
pub proof fn lemma_expired_attestation_fails(h: Handshake, now: u64, ephemeral: PublicKey, proof: IdentityProof)
    requires
        h.wf(),
        h.config.role == Role::Initiator,
        h.status == HandshakeStatus::SentMessage1,
        !h.timed_out(now),
        proof.attestation_signature_valid,
        proof.attestation.subject == proof.identifier,
        now < proof.attestation.created_at || proof.attestation.expires_at <= now,
    ensures
        ({
            let (h2, a) = h.step_spec(now, HandshakeMessage::Message2 { ephemeral, proof });
            &&& a == Ok::<HandshakeAction, ChannelError>(HandshakeAction::Fail { error: ChannelError::AttestationExpired })
            &&& h2.status == HandshakeStatus::Failed
            &&& h2.peer is None
        }),
{
}

/// An initiator whose trust policy rejects the responder's verified
/// identifier fails with `TrustPolicyRejected` instead of sending Message 3,
/// so its own identity proof never reaches the rejected peer.
pub proof fn lemma_rejected_peer_gets_no_message3(h: Handshake, now: u64, ephemeral: PublicKey, proof: IdentityProof)
    requires
        h.wf(),
        h.config.role == Role::Initiator,
        h.status == HandshakeStatus::SentMessage1,
        !h.timed_out(now),
        purpose_key_result(proof.identifier, proof.attestation, proof.attestation_signature_valid, now) is Ok,
        proof.transcript_signature_valid,
        !trusts(h.config.trust_policy, proof.identifier),
    ensures
        ({
            let (h2, a) = h.step_spec(now, HandshakeMessage::Message2 { ephemeral, proof });
            &&& a == Ok::<HandshakeAction, ChannelError>(HandshakeAction::Fail { error: ChannelError::TrustPolicyRejected })
            &&& !(a matches Ok(HandshakeAction::SendMessage3AndComplete { .. }))
            &&& h2.status == HandshakeStatus::Failed
            &&& h2.peer is None
        }),
{
}

/// An initiator started at `start` with timeout `timeout` whose peer never
/// answers Message 1 keeps waiting at every tick before `start + timeout`, and
/// fails with `HandshakeTimeout` at every tick from then on.
pub proof fn lemma_timeout_exact(config: HandshakeConfig, ephemeral: PublicKey, start: u64, timeout: u64, now: u64)
    requires
        config.role == Role::Initiator,
        config.timeout == Some(timeout),
        start + timeout <= u64::MAX,
    ensures
        ({
            let (h, _) = Handshake::start_spec(config, ephemeral, start);
            let (h2, a) = h.step_spec(now, HandshakeMessage::Tick);
            &&& now < start + timeout ==> a == Ok::<HandshakeAction, ChannelError>(HandshakeAction::Wait) && h2 == h
            &&& now >= start + timeout ==> a == Ok::<HandshakeAction, ChannelError>(
                HandshakeAction::Fail { error: ChannelError::HandshakeTimeout },
            ) && h2.status == HandshakeStatus::Failed && h2.peer is None
        }),
{
}

/// A message that arrives out of order is rejected and leaves the state as it was.
pub proof fn lemma_out_of_order_changes_nothing(h: Handshake, now: u64, msg: HandshakeMessage)
    requires
        h.step_spec(now, msg).1 == Err::<HandshakeAction, ChannelError>(ChannelError::ProtocolViolation),
    ensures
        h.step_spec(now, msg).0 == h,
{
}

} // verus!
