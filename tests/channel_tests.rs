use secure_channels::address::{Address, AddressAllocator, Role};
use secure_channels::channels::{SecureChannelListenerOptions, SecureChannelOptions, SecureChannels};
use secure_channels::error::ChannelError;
use secure_channels::handshake::{
    Handshake, HandshakeAction, HandshakeConfig, HandshakeMessage, HandshakeStatus, IdentityProof,
    PublicKey,
};
use secure_channels::registry::{RegistryEntry, SecureChannelRegistry};
use secure_channels::runtime::{decode_frame, encode_frame, Decryptor, Direction, Encryptor};
use secure_channels::trust::{
    evaluate_trust_policy, verify_credentials, verify_purpose_key, Attestation, PresentedCredential,
    CredentialStatus, Identifier, TrustPolicy,
};

const ID_A: Identifier = Identifier { value: 0xA };
const ID_B: Identifier = Identifier { value: 0xB };
const ID_C: Identifier = Identifier { value: 0xC };

fn attestation(subject: Identifier) -> Attestation {
    Attestation { subject, purpose_key: 77, created_at: 100, expires_at: 1000 }
}

fn proof_of(identifier: Identifier) -> IdentityProof {
    IdentityProof {
        identifier,
        attestation: attestation(identifier),
        attestation_signature_valid: true,
        transcript_signature_valid: true,
        credentials: Vec::new(),
    }
}

fn key(b: u8) -> PublicKey {
    PublicKey { bytes: [b; 32] }
}

fn initiator_options(policy: TrustPolicy) -> SecureChannelOptions {
    SecureChannelOptions { trust_policy: policy, credentials_required: false, timeout: 50, flow_control_id: 9 }
}

fn listener_options() -> SecureChannelListenerOptions {
    SecureChannelListenerOptions { trust_policy: TrustPolicy::TrustEveryone, credentials_required: false, flow_control_id: 5 }
}

#[test]
fn allocator_hands_out_fresh_distinct_addresses() {
    let mut alloc = AddressAllocator::new();
    let a = alloc.generate(Role::Initiator);
    let b = alloc.generate(Role::Responder);
    assert_eq!(a.role, Role::Initiator);
    assert_eq!(b.role, Role::Responder);
    let all = [a.encryptor, a.decryptor, a.handshake, a.encryptor_api, b.encryptor, b.decryptor, b.handshake, b.encryptor_api];
    for i in 0..all.len() {
        for j in (i + 1)..all.len() {
            assert_ne!(all[i], all[j]);
        }
    }
    assert_eq!(a.encryptor, Address { value: 0 });
    assert_eq!(b.encryptor_api, Address { value: 7 });
}

#[test]
fn purpose_key_checks() {
    let att = attestation(ID_A);
    let k = verify_purpose_key(ID_A, &att, true, 500).unwrap();
    assert_eq!(k.subject, ID_A);
    assert_eq!(k.key, 77);
    assert_eq!(verify_purpose_key(ID_A, &att, false, 500), Err(ChannelError::AttestationInvalid));
    assert_eq!(verify_purpose_key(ID_B, &att, true, 500), Err(ChannelError::AttestationInvalid));
    assert_eq!(verify_purpose_key(ID_A, &att, true, 1000), Err(ChannelError::AttestationExpired));
    assert_eq!(verify_purpose_key(ID_A, &att, true, 99), Err(ChannelError::AttestationExpired));
    assert!(verify_purpose_key(ID_A, &att, true, 100).is_ok());
    assert!(verify_purpose_key(ID_A, &att, true, 999).is_ok());
}

#[test]
fn trust_policies() {
    assert_eq!(evaluate_trust_policy(&TrustPolicy::TrustEveryone, ID_C), Ok(()));
    assert_eq!(evaluate_trust_policy(&TrustPolicy::TrustIdentifier(ID_B), ID_B), Ok(()));
    assert_eq!(evaluate_trust_policy(&TrustPolicy::TrustIdentifier(ID_B), ID_C), Err(ChannelError::TrustPolicyRejected));
    let many = TrustPolicy::TrustMultipleIdentifiers(vec![ID_A, ID_B]);
    assert_eq!(evaluate_trust_policy(&many, ID_B), Ok(()));
    assert_eq!(evaluate_trust_policy(&many, ID_C), Err(ChannelError::TrustPolicyRejected));
    let none = TrustPolicy::TrustMultipleIdentifiers(Vec::new());
    assert_eq!(evaluate_trust_policy(&none, ID_A), Err(ChannelError::TrustPolicyRejected));
}

#[test]
fn credential_checks() {
    let valid = PresentedCredential { subject: ID_A, status: CredentialStatus::Valid };
    let revoked = PresentedCredential { subject: ID_A, status: CredentialStatus::Revoked };
    let invalid = PresentedCredential { subject: ID_A, status: CredentialStatus::Invalid };
    let foreign = PresentedCredential { subject: ID_B, status: CredentialStatus::Valid };
    assert_eq!(verify_credentials(ID_A, &Vec::new(), false), Ok(0));
    assert_eq!(verify_credentials(ID_A, &Vec::new(), true), Err(ChannelError::CredentialInvalid));
    assert_eq!(verify_credentials(ID_A, &vec![valid, valid], true), Ok(2));
    assert_eq!(verify_credentials(ID_A, &vec![valid, revoked, invalid], false), Err(ChannelError::CredentialRevoked));
    assert_eq!(verify_credentials(ID_A, &vec![invalid, revoked], false), Err(ChannelError::CredentialInvalid));
    assert_eq!(verify_credentials(ID_A, &vec![valid, foreign], false), Err(ChannelError::CredentialInvalid));
}

/// Drives a full handshake between an initiator `id-A` and a responder `id-B`
/// and registers both channels; returns the two facades.
fn establish(policy: TrustPolicy) -> (SecureChannels, SecureChannels, Address, Address) {
    let mut side_i = SecureChannels::new(SecureChannelRegistry::new());
    let mut side_r = SecureChannels::new(SecureChannelRegistry::new());
    let listener = side_r.create_secure_channel_listener(Address { value: 500 }, &listener_options());
    assert_eq!(listener.address, Address { value: 500 });
    assert_eq!(listener.flow_control_id, 5);

    let route = vec![listener.address];
    let (mut pi, a0) = side_i
        .create_secure_channel(ID_A, &route, initiator_options(policy), &attestation(ID_A), true, key(1), 200)
        .unwrap();
    assert_eq!(pi.next_hop, Some(Address { value: 500 }));
    let e1 = match a0 {
        HandshakeAction::SendMessage1 { ephemeral } => ephemeral,
        other => panic!("unexpected {:?}", other),
    };
    let mut pr = side_r.accept_secure_channel(&listener, ID_B, listener_options(), key(2), 201);
    let e2 = match pr.handshake.step(201, HandshakeMessage::Message1 { ephemeral: e1 }).unwrap() {
        HandshakeAction::SendMessage2 { ephemeral } => ephemeral,
        other => panic!("unexpected {:?}", other),
    };
    match pi.handshake.step(202, HandshakeMessage::Message2 { ephemeral: e2, proof: proof_of(ID_B) }).unwrap() {
        HandshakeAction::SendMessage3AndComplete { peer } => assert_eq!(peer, ID_B),
        other => panic!("unexpected {:?}", other),
    }
    match pr.handshake.step(203, HandshakeMessage::Message3 { proof: proof_of(ID_A) }).unwrap() {
        HandshakeAction::Complete { peer } => assert_eq!(peer, ID_A),
        other => panic!("unexpected {:?}", other),
    }
    assert_eq!(pi.handshake.peer_ephemeral.unwrap().bytes, [2u8; 32]);
    assert_eq!(pr.handshake.peer_ephemeral.unwrap().bytes, [1u8; 32]);
    let ci = side_i.complete_secure_channel(&pi).unwrap();
    let cr = side_r.complete_secure_channel(&pr).unwrap();
    assert_eq!(ci.encryptor, pi.addresses.encryptor);
    assert_eq!(ci.encryptor_api, pi.addresses.encryptor_api);
    assert_eq!(ci.flow_control_id, 9);
    assert_eq!(cr.flow_control_id, 5);
    (side_i, side_r, ci.encryptor, cr.encryptor)
}

#[test]
fn handshake_completes_and_registers_both_sides() {
    let (side_i, side_r, ei, er) = establish(TrustPolicy::TrustIdentifier(ID_B));
    let entry_i = side_i.lookup_secure_channel(ei).unwrap();
    assert_eq!(entry_i.peer, ID_B);
    assert_eq!(entry_i.role, Role::Initiator);
    let entry_r = side_r.lookup_secure_channel(er).unwrap();
    assert_eq!(entry_r.peer, ID_A);
    assert_eq!(entry_r.role, Role::Responder);
    assert_eq!(side_i.secure_channel_registry().list().len(), 1);
}

#[test]
fn ping_scenario_delivers_once_and_rejects_replay() {
    let (_side_i, _side_r, _ei, _er) = establish(TrustPolicy::TrustEveryone);
    let mut enc = Encryptor::new(Role::Initiator);
    let mut dec = Decryptor::new(Role::Responder);
    let sealed = b"ping".to_vec();
    let c = enc.take_counter().unwrap();
    assert_eq!(c, 0);
    let frame = encode_frame(c, &sealed);
    let (got, body) = decode_frame(&frame).unwrap();
    assert_eq!(got, 0);
    assert_eq!(dec.receive(got, true), Ok(()));
    assert_eq!(body, b"ping".to_vec());
    let (again, _) = decode_frame(&frame).unwrap();
    assert_eq!(dec.receive(again, true), Err(ChannelError::ReplayOrOutOfOrder));
    let c2 = enc.take_counter().unwrap();
    assert_eq!(c2, 1);
    assert_eq!(dec.receive(c2, true), Ok(()));
}

#[test]
fn expired_responder_attestation_fails_and_registers_nothing() {
    let mut side_i = SecureChannels::new(SecureChannelRegistry::new());
    let route = vec![Address { value: 500 }];
    let (mut pi, _) = side_i
        .create_secure_channel(ID_A, &route, initiator_options(TrustPolicy::TrustEveryone), &attestation(ID_A), true, key(1), 200)
        .unwrap();
    let mut proof = proof_of(ID_B);
    proof.attestation.expires_at = 150;
    let a = pi.handshake.step(202, HandshakeMessage::Message2 { ephemeral: key(2), proof }).unwrap();
    assert!(matches!(a, HandshakeAction::Fail { error: ChannelError::AttestationExpired }));
    assert_eq!(pi.handshake.status, HandshakeStatus::Failed);
    assert_eq!(side_i.complete_secure_channel(&pi), Err(ChannelError::AttestationExpired));
    assert_eq!(side_i.lookup_secure_channel(pi.addresses.encryptor), Err(ChannelError::ChannelNotFound));
    assert!(side_i.secure_channel_registry().list().is_empty());
}

#[test]
fn rejected_peer_fails_before_message3() {
    let mut side_i = SecureChannels::new(SecureChannelRegistry::new());
    let route = vec![Address { value: 500 }];
    let (mut pi, _) = side_i
        .create_secure_channel(ID_A, &route, initiator_options(TrustPolicy::TrustIdentifier(ID_C)), &attestation(ID_A), true, key(1), 200)
        .unwrap();
    let a = pi.handshake.step(202, HandshakeMessage::Message2 { ephemeral: key(2), proof: proof_of(ID_B) }).unwrap();
    assert!(matches!(a, HandshakeAction::Fail { error: ChannelError::TrustPolicyRejected }));
    assert_eq!(side_i.complete_secure_channel(&pi), Err(ChannelError::TrustPolicyRejected));
}

#[test]
fn unanswered_handshake_times_out_at_deadline() {
    let mut side_i = SecureChannels::new(SecureChannelRegistry::new());
    let route = vec![Address { value: 500 }];
    let (mut pi, _) = side_i
        .create_secure_channel(ID_A, &route, initiator_options(TrustPolicy::TrustEveryone), &attestation(ID_A), true, key(1), 200)
        .unwrap();
    assert!(matches!(pi.handshake.step(249, HandshakeMessage::Tick), Ok(HandshakeAction::Wait)));
    assert_eq!(pi.handshake.status, HandshakeStatus::SentMessage1);
    let a = pi.handshake.step(250, HandshakeMessage::Tick).unwrap();
    assert!(matches!(a, HandshakeAction::Fail { error: ChannelError::HandshakeTimeout }));
    assert_eq!(side_i.complete_secure_channel(&pi), Err(ChannelError::HandshakeTimeout));
    assert!(side_i.secure_channel_registry().list().is_empty());
}

#[test]
fn out_of_order_messages_are_rejected_without_change() {
    let config = HandshakeConfig {
        role: Role::Responder,
        identifier: ID_B,
        trust_policy: TrustPolicy::TrustEveryone,
        credentials_required: false,
        timeout: None,
    };
    let (mut h, a) = Handshake::new(config, key(2), 0);
    assert!(matches!(a, HandshakeAction::Wait));
    assert_eq!(h.step(1, HandshakeMessage::Message3 { proof: proof_of(ID_A) }).err(), Some(ChannelError::ProtocolViolation));
    assert_eq!(h.status, HandshakeStatus::Start);
    assert!(h.step(2, HandshakeMessage::Message1 { ephemeral: key(1) }).is_ok());
    assert_eq!(h.step(3, HandshakeMessage::Message1 { ephemeral: key(3) }).err(), Some(ChannelError::ProtocolViolation));
    assert_eq!(h.peer_ephemeral.unwrap().bytes, [1u8; 32]);
    assert_eq!(h.status, HandshakeStatus::SentMessage2);
}

#[test]
fn bad_transcript_signature_and_missing_credentials_fail() {
    let config = HandshakeConfig {
        role: Role::Responder,
        identifier: ID_B,
        trust_policy: TrustPolicy::TrustEveryone,
        credentials_required: true,
        timeout: None,
    };
    let (mut h, _) = Handshake::new(config.clone(), key(2), 0);
    h.step(1, HandshakeMessage::Message1 { ephemeral: key(1) }).unwrap();
    let a = h.step(300, HandshakeMessage::Message3 { proof: proof_of(ID_A) }).unwrap();
    assert!(matches!(a, HandshakeAction::Fail { error: ChannelError::CredentialInvalid }));
    assert_eq!(h.error, Some(ChannelError::CredentialInvalid));
    assert_eq!(h.step(301, HandshakeMessage::Tick).err(), Some(ChannelError::ProtocolViolation));

    let (mut h2, _) = Handshake::new(config, key(2), 0);
    h2.step(1, HandshakeMessage::Message1 { ephemeral: key(1) }).unwrap();
    let mut proof = proof_of(ID_A);
    proof.transcript_signature_valid = false;
    let a2 = h2.step(300, HandshakeMessage::Message3 { proof }).unwrap();
    assert!(matches!(a2, HandshakeAction::Fail { error: ChannelError::AttestationInvalid }));
}

#[test]
fn stop_removes_channel_and_decryptor_refuses() {
    let (mut side_i, _side_r, ei, _er) = establish(TrustPolicy::TrustEveryone);
    let mut dec = Decryptor::new(Role::Initiator);
    assert_eq!(side_i.stop_secure_channel(&ei), Ok(()));
    dec.close();
    assert_eq!(side_i.lookup_secure_channel(ei), Err(ChannelError::ChannelNotFound));
    assert_eq!(dec.receive(0, true), Err(ChannelError::ChannelNotFound));
    assert_eq!(side_i.stop_secure_channel(&ei), Err(ChannelError::ChannelNotFound));
}

#[test]
fn empty_route_fails_before_handshake() {
    let mut side_i = SecureChannels::new(SecureChannelRegistry::new());
    let r = side_i.create_secure_channel(ID_A, &Vec::new(), initiator_options(TrustPolicy::TrustEveryone), &attestation(ID_A), true, key(1), 200);
    assert_eq!(r.err(), Some(ChannelError::RouteResolutionFailed));
    let r2 = side_i.create_secure_channel(ID_A, &vec![Address { value: 1 }], initiator_options(TrustPolicy::TrustEveryone), &attestation(ID_A), false, key(1), 200);
    assert_eq!(r2.err(), Some(ChannelError::AttestationInvalid));
}

#[test]
fn decryptor_window_tolerates_reordering_only_within_bounds() {
    let mut dec = Decryptor::new(Role::Responder);
    assert_eq!(dec.receive(40, true), Ok(()));
    assert_eq!(dec.receive(10, true), Ok(()));
    assert_eq!(dec.receive(10, true), Err(ChannelError::ReplayOrOutOfOrder));
    assert_eq!(dec.receive(7, true), Err(ChannelError::ReplayOrOutOfOrder));
    assert_eq!(dec.receive(8, true), Err(ChannelError::ReplayOrOutOfOrder));
    assert_eq!(dec.receive(9, true), Ok(()));
    assert_eq!(dec.receive(41, false), Err(ChannelError::DecryptionFailed));
    assert_eq!(dec.receive(41, true), Ok(()));
    assert_eq!(dec.receive(u64::MAX, true), Err(ChannelError::ReplayOrOutOfOrder));
}

#[test]
fn directions_are_separated() {
    let ei = Encryptor::new(Role::Initiator);
    let er = Encryptor::new(Role::Responder);
    let di = Decryptor::new(Role::Initiator);
    let dr = Decryptor::new(Role::Responder);
    assert_eq!(ei.sends_in(), Direction::InitiatorToResponder);
    assert_eq!(dr.receives_from(), Direction::InitiatorToResponder);
    assert_eq!(er.sends_in(), Direction::ResponderToInitiator);
    assert_eq!(di.receives_from(), Direction::ResponderToInitiator);
    assert_ne!(ei.sends_in(), er.sends_in());
}

#[test]
fn frames_carry_counter_big_endian() {
    let f = encode_frame(0x0102030405060708, &vec![9, 10]);
    assert_eq!(f, vec![1, 2, 3, 4, 5, 6, 7, 8, 9, 10]);
    assert_eq!(decode_frame(&f), Some((0x0102030405060708, vec![9, 10])));
    assert_eq!(decode_frame(&vec![0, 0, 0, 0, 0, 0, 0, 5]), Some((5, Vec::new())));
    assert_eq!(decode_frame(&vec![1, 2, 3]), None);
    let top = encode_frame(u64::MAX - 1, &Vec::new());
    assert_eq!(decode_frame(&top), Some((u64::MAX - 1, Vec::new())));
}

#[test]
fn capacity_is_reported() {
    let channels = SecureChannels::new(SecureChannelRegistry::new());
    assert!(channels.has_capacity());
    assert!(channels.secure_channel_registry().lookup(Address { value: 3 }).is_none());
}

#[test]
fn registry_insert_replace_remove_list() {
    let mut reg = SecureChannelRegistry::new();
    let e1 = RegistryEntry { encryptor: Address { value: 1 }, decryptor: Address { value: 2 }, peer: ID_A, flow_control_id: 3, role: Role::Initiator };
    let e2 = RegistryEntry { encryptor: Address { value: 5 }, decryptor: Address { value: 6 }, peer: ID_B, flow_control_id: 4, role: Role::Responder };
    reg.insert(e1);
    reg.insert(e2);
    assert_eq!(reg.list().len(), 2);
    let e1b = RegistryEntry { peer: ID_C, ..e1 };
    reg.insert(e1b);
    assert_eq!(reg.list().len(), 2);
    assert_eq!(reg.lookup(Address { value: 1 }), Some(e1b));
    assert_eq!(reg.remove(Address { value: 1 }), Ok(e1b));
    assert_eq!(reg.remove(Address { value: 1 }), Err(ChannelError::ChannelNotFound));
    assert_eq!(reg.lookup(Address { value: 1 }), None);
    assert_eq!(reg.list(), vec![e2]);
}
