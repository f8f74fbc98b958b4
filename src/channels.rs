use vstd::prelude::*;
use crate::address::{Address, AddressAllocator, Addresses, Role};
use crate::error::ChannelError;
use crate::handshake::{
    lemma_expired_attestation_fails, lemma_timeout_exact, Handshake, HandshakeAction, HandshakeConfig,
    HandshakeMessage, HandshakeStatus, IdentityProof, PublicKey,
};
use crate::registry::{RegistryEntry, SecureChannelRegistry};
use crate::trust::{purpose_key_result, verify_purpose_key, Attestation, Identifier, TrustPolicy};

verus! {

/// What the initiator configures for a new channel.
#[derive(Clone, Debug)]
pub struct SecureChannelOptions {
    pub trust_policy: TrustPolicy,
    pub credentials_required: bool,
    pub timeout: u64,
    pub flow_control_id: u64,
}

/// What a listener configures for each channel it accepts.
#[derive(Clone, Debug)]
pub struct SecureChannelListenerOptions {
    pub trust_policy: TrustPolicy,
    pub credentials_required: bool,
    pub flow_control_id: u64,
}

/// The handle of a standing listener.
#[derive(Clone, Copy, Debug, PartialEq, Eq, Structural)]
pub struct SecureChannelListener {
    pub address: Address,
    pub flow_control_id: u64,
}

/// The handle of an established channel.
#[derive(Clone, Copy, Debug, PartialEq, Eq, Structural)]
pub struct SecureChannel {
    pub encryptor: Address,
    pub encryptor_api: Address,
    pub flow_control_id: u64,
}

/// A channel whose handshake is under way: the worker that owns it drives
/// `handshake` and hands it back for registration once it is over.
pub struct PendingChannel {
    pub addresses: Addresses,
    pub next_hop: Option<Address>,
    pub flow_control_id: u64,
    pub handshake: Handshake,
}

/// The entry that a completed handshake of `p` registers.
pub open spec fn entry_of(p: PendingChannel, peer: Identifier) -> RegistryEntry {
    RegistryEntry {
        encryptor: p.addresses.encryptor,
        decryptor: p.addresses.decryptor,
        peer,
        flow_control_id: p.flow_control_id,
        role: p.addresses.role,
    }
}

/// The registry after handing `p` back, and what is returned: a completed
/// handshake is registered, a failed one reports its error, and one still
/// under way is a protocol violation; only the first changes the registry.
pub open spec fn complete_result(
    channels: Map<Address, RegistryEntry>,
    p: PendingChannel,
) -> (Map<Address, RegistryEntry>, Result<SecureChannel, ChannelError>) {
    match p.handshake.status {
        HandshakeStatus::Completed => match p.handshake.peer {
            Some(peer) => (
                channels.insert(p.addresses.encryptor, entry_of(p, peer)),
                Ok(SecureChannel {
                    encryptor: p.addresses.encryptor,
                    encryptor_api: p.addresses.encryptor_api,
                    flow_control_id: p.flow_control_id,
                }),
            ),
            None => (channels, Err(ChannelError::ProtocolViolation)),
        },
        HandshakeStatus::Failed => match p.handshake.error {
            Some(e) => (channels, Err(e)),
            None => (channels, Err(ChannelError::ProtocolViolation)),
        },
        _ => (channels, Err(ChannelError::ProtocolViolation)),
    }
}

/// What a lookup of `address` among `channels` returns.
pub open spec fn lookup_result(channels: Map<Address, RegistryEntry>, address: Address) -> Result<RegistryEntry, ChannelError> {
    if channels.contains_key(address) {
        Ok(channels[address])
    } else {
        Err(ChannelError::ChannelNotFound)
    }
}

/// The composition root: allocates addresses, starts handshakes, registers
/// the channels they establish and tears channels down.
pub struct SecureChannels {
    registry: SecureChannelRegistry,
    allocator: AddressAllocator,
}

impl SecureChannels {
    /// The established channels, by encryptor address.
    pub closed spec fn channels(&self) -> Map<Address, RegistryEntry> {
        self.registry@
    }

    /// Whether the address space still holds a fresh channel instance.
    pub closed spec fn can_allocate(&self) -> bool {
        self.allocator.next_free() + 4 <= u64::MAX
    }

    pub closed spec fn wf(&self) -> bool {
        self.registry.wf()
    }

    pub fn new(registry: SecureChannelRegistry) -> (r: SecureChannels)
        requires
            registry.wf(),
        ensures
            r.wf(),
            r.channels() == registry@,
            r.can_allocate(),
    {
        SecureChannels { registry, allocator: AddressAllocator::new() }
    }

    /// Whether another channel instance can still be given fresh addresses.
    pub fn has_capacity(&self) -> (r: bool)
        ensures
            r == self.can_allocate(),
    {
        self.allocator.has_capacity()
    }

    /// The registry of established channels.
    pub fn secure_channel_registry(&self) -> (r: &SecureChannelRegistry)
        ensures
            r@ == self.channels(),
    {
        &self.registry
    }

    /// Opens a listener at `address`; each inbound Message 1 is then given to
    /// `accept_secure_channel`.
    pub fn create_secure_channel_listener(
        &self,
        address: Address,
        options: &SecureChannelListenerOptions,
    ) -> (r: SecureChannelListener)
        ensures
            r == (SecureChannelListener { address, flow_control_id: options.flow_control_id }),
    {
        SecureChannelListener { address, flow_control_id: options.flow_control_id }
    }

    /// Starts an initiator handshake for `identifier` toward `route`, at time
    /// `now`, after checking the identity's own purpose-key attestation. An
    /// empty route fails with `RouteResolutionFailed` before anything is
    /// allocated. On success the pending channel has fresh addresses, the
    /// route's first hop, and a handshake that has just sent Message 1.
    pub fn create_secure_channel(
        &mut self,
        identifier: Identifier,
        route: &Vec<Address>,
        options: SecureChannelOptions,
        attestation: &Attestation,
        attestation_signature_valid: bool,
        own_ephemeral: PublicKey,
        now: u64,
    ) -> (r: Result<(PendingChannel, HandshakeAction), ChannelError>)
        requires
            old(self).wf(),
            old(self).can_allocate(),
        ensures
            final(self).wf(),
            final(self).channels() == old(self).channels(),
            route@.len() == 0 ==> r == Err::<(PendingChannel, HandshakeAction), ChannelError>(
                ChannelError::RouteResolutionFailed,
            ),
            route@.len() > 0 && purpose_key_result(identifier, *attestation, attestation_signature_valid, now) is Err
                ==> r == Err::<(PendingChannel, HandshakeAction), ChannelError>(
                purpose_key_result(identifier, *attestation, attestation_signature_valid, now)->Err_0,
            ),
            r is Ok <==> route@.len() > 0 && purpose_key_result(identifier, *attestation, attestation_signature_valid, now) is Ok,
            r is Err ==> final(self).can_allocate(),
            r matches Ok((p, a)) ==> {
                &&& p.addresses.role == Role::Initiator
                &&& p.addresses.distinct()
                &&& p.next_hop == Some(route@[0])
                &&& p.flow_control_id == options.flow_control_id
                &&& p.handshake.wf()
                &&& (p.handshake, a) == Handshake::start_spec(
                    HandshakeConfig {
                        role: Role::Initiator,
                        identifier,
                        trust_policy: options.trust_policy,
                        credentials_required: options.credentials_required,
                        timeout: Some(options.timeout),
                    },
                    own_ephemeral,
                    now,
                )
            },
    {
        if route.len() == 0 {
            return Err(ChannelError::RouteResolutionFailed);
        }
        let next_hop = route[0];
        match verify_purpose_key(identifier, attestation, attestation_signature_valid, now) {
            Err(e) => Err(e),
            Ok(_) => {
                let addresses = self.allocator.generate(Role::Initiator);
                let config = HandshakeConfig {
                    role: Role::Initiator,
                    identifier,
                    trust_policy: options.trust_policy,
                    credentials_required: options.credentials_required,
                    timeout: Some(options.timeout),
                };
                let (handshake, action) = Handshake::new(config, own_ephemeral, now);
                let p = PendingChannel {
                    addresses,
                    next_hop: Some(next_hop),
                    flow_control_id: options.flow_control_id,
                    handshake,
                };
                Ok((p, action))
            },
        }
    }

    /// Starts a responder handshake for an inbound Message 1 that reached
    /// `listener`, with fresh addresses and no deadline of its own.
    pub fn accept_secure_channel(
        &mut self,
        listener: &SecureChannelListener,
        identifier: Identifier,
        options: SecureChannelListenerOptions,
        own_ephemeral: PublicKey,
        now: u64,
    ) -> (r: PendingChannel)
        requires
            old(self).wf(),
            old(self).can_allocate(),
        ensures
            final(self).wf(),
            final(self).channels() == old(self).channels(),
            r.addresses.role == Role::Responder,
            r.addresses.distinct(),
            r.next_hop is None,
            r.flow_control_id == listener.flow_control_id,
            r.handshake.wf(),
            r.handshake == Handshake::start_spec(
                HandshakeConfig {
                    role: Role::Responder,
                    identifier,
                    trust_policy: options.trust_policy,
                    credentials_required: options.credentials_required,
                    timeout: None,
                },
                own_ephemeral,
                now,
            ).0,
    {
        let addresses = self.allocator.generate(Role::Responder);
        let config = HandshakeConfig {
            role: Role::Responder,
            identifier,
            trust_policy: options.trust_policy,
            credentials_required: options.credentials_required,
            timeout: None,
        };
        let (handshake, _) = Handshake::new(config, own_ephemeral, now);
        PendingChannel { addresses, next_hop: None, flow_control_id: listener.flow_control_id, handshake }
    }

    /// Hands back a pending channel whose handshake is over: a completed one
    /// is registered and its handle returned; otherwise nothing is registered.
    pub fn complete_secure_channel(&mut self, pending: &PendingChannel) -> (r: Result<SecureChannel, ChannelError>)
        requires
            old(self).wf(),
        ensures
            final(self).wf(),
            final(self).can_allocate() == old(self).can_allocate(),
            (final(self).channels(), r) == complete_result(old(self).channels(), *pending),
    {
        match pending.handshake.status {
            HandshakeStatus::Completed => match pending.handshake.peer {
                Some(peer) => {
                    let entry = RegistryEntry {
                        encryptor: pending.addresses.encryptor,
                        decryptor: pending.addresses.decryptor,
                        peer,
                        flow_control_id: pending.flow_control_id,
                        role: pending.addresses.role,
                    };
                    self.registry.insert(entry);
                    Ok(SecureChannel {
                        encryptor: pending.addresses.encryptor,
                        encryptor_api: pending.addresses.encryptor_api,
                        flow_control_id: pending.flow_control_id,
                    })
                },
                None => Err(ChannelError::ProtocolViolation),
            },
            HandshakeStatus::Failed => match pending.handshake.error {
                Some(e) => Err(e),
                None => Err(ChannelError::ProtocolViolation),
            },
            _ => Err(ChannelError::ProtocolViolation),
        }
    }

    /// The entry of the channel whose encryptor is at `address`.
    pub fn lookup_secure_channel(&self, address: Address) -> (r: Result<RegistryEntry, ChannelError>)
        requires
            self.wf(),
        ensures
            r == lookup_result(self.channels(), address),
    {
        match self.registry.lookup(address) {
            Some(e) => Ok(e),
            None => Err(ChannelError::ChannelNotFound),
        }
    }

    /// Tears down the channel whose encryptor is at `channel`: its entry is
    /// removed before this returns. `ChannelNotFound` where none is registered.
    pub fn stop_secure_channel(&mut self, channel: &Address) -> (r: Result<(), ChannelError>)
        requires
            old(self).wf(),
        ensures
            final(self).wf(),
            final(self).can_allocate() == old(self).can_allocate(),
            final(self).channels() == old(self).channels().remove(*channel),
            r is Ok <==> old(self).channels().contains_key(*channel),
            r is Err ==> r == Err::<(), ChannelError>(ChannelError::ChannelNotFound),
    {
        match self.registry.remove(*channel) {
            Ok(_) => Ok(()),
            Err(e) => Err(e),
        }
    }
}

/// A handshake that failed registers nothing: handing it back leaves the
/// channels as they were and reports the handshake's own error.
pub proof fn lemma_failed_handshake_registers_nothing(channels: Map<Address, RegistryEntry>, p: PendingChannel)
    requires
        p.handshake.wf(),
        p.handshake.status == HandshakeStatus::Failed,
    ensures
        complete_result(channels, p).0 == channels,
        complete_result(channels, p).1 == Err::<SecureChannel, ChannelError>(p.handshake.error->Some_0),
{
}

/// After a channel is stopped, looking it up reports `ChannelNotFound`.
pub proof fn lemma_stopped_channel_not_found(channels: Map<Address, RegistryEntry>, address: Address)
    ensures
        lookup_result(channels.remove(address), address) == Err::<RegistryEntry, ChannelError>(ChannelError::ChannelNotFound),
{
}

/// An initiator that receives an expired attestation from the responder
/// fails with `AttestationExpired`, and handing its channel back registers
/// nothing.
pub proof fn lemma_expired_attestation_registers_nothing(
    channels: Map<Address, RegistryEntry>,
    p: PendingChannel,
    now: u64,
    ephemeral: PublicKey,
    proof: IdentityProof,
)
    requires
        p.handshake.wf(),
        p.handshake.config.role == Role::Initiator,
        p.handshake.status == HandshakeStatus::SentMessage1,
        !p.handshake.timed_out(now),
        proof.attestation_signature_valid,
        proof.attestation.subject == proof.identifier,
        now < proof.attestation.created_at || proof.attestation.expires_at <= now,
    ensures
        ({
            let (h2, _) = p.handshake.step_spec(now, HandshakeMessage::Message2 { ephemeral, proof });
            complete_result(channels, PendingChannel { handshake: h2, ..p })
                == (channels, Err::<SecureChannel, ChannelError>(ChannelError::AttestationExpired))
        }),
{
    lemma_expired_attestation_fails(p.handshake, now, ephemeral, proof);
}

/// An initiator whose peer never answers Message 1 fails with
/// `HandshakeTimeout` at the first tick at or after `start + timeout`, and
/// handing its channel back registers nothing.
pub proof fn lemma_timeout_registers_nothing(
    channels: Map<Address, RegistryEntry>,
    p: PendingChannel,
    config: HandshakeConfig,
    ephemeral: PublicKey,
    start: u64,
    timeout: u64,
    now: u64,
)
    requires
        config.role == Role::Initiator,
        config.timeout == Some(timeout),
        start + timeout <= u64::MAX,
        start + timeout <= now,
        p.handshake == Handshake::start_spec(config, ephemeral, start).0,
    ensures
        ({
            let (h2, a) = p.handshake.step_spec(now, HandshakeMessage::Tick);
            &&& a == Ok::<HandshakeAction, ChannelError>(HandshakeAction::Fail { error: ChannelError::HandshakeTimeout })
            &&& complete_result(channels, PendingChannel { handshake: h2, ..p })
                == (channels, Err::<SecureChannel, ChannelError>(ChannelError::HandshakeTimeout))
        }),
{
    lemma_timeout_exact(config, ephemeral, start, timeout, now);
}

} // verus!
