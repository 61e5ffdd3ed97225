//! Conformance scenarios for the pairing initiator: the whole emitted
//! trace is compared against the expected event sequence.

use lmp::context::Context;
use lmp::packets::{
    HciCommand, HciEvent, Input, IoCapabilityFields, LmpPacket, Opcode, Output,
};
use lmp::pairing::initiate;
use lmp::types::{
    AuthenticationRequirements, ErrorCode, IoCapability, KeyType, OobDataPresent, PairingError,
};

const BD: u64 = 0xB1;

fn z16() -> Vec<u8> {
    vec![0u8; 16]
}

fn fields(io: u8, oob: u8, auth: u8) -> IoCapabilityFields {
    IoCapabilityFields {
        io_capabilities: io,
        oob_authentication_data: oob,
        authentication_requirement: auth,
    }
}

fn in_accept(op: Opcode) -> Input {
    Input::Lmp(LmpPacket::Accepted { transaction_id: 0, accepted_opcode: op })
}

fn out_accept(op: Opcode) -> Output {
    Output::Lmp(LmpPacket::Accepted { transaction_id: 0, accepted_opcode: op })
}

fn enc_header(len: u8) -> LmpPacket {
    LmpPacket::EncapsulatedHeader {
        transaction_id: 0,
        major_type: 1,
        minor_type: 1,
        payload_length: len,
    }
}

fn enc_payload() -> LmpPacket {
    LmpPacket::EncapsulatedPayload { transaction_id: 0, data: z16() }
}

fn confirm() -> LmpPacket {
    LmpPacket::SimplePairingConfirm { transaction_id: 0, commitment_value: z16() }
}

fn number() -> LmpPacket {
    LmpPacket::SimplePairingNumber { transaction_id: 0, nonce: z16() }
}

fn dhkey() -> LmpPacket {
    LmpPacket::DhkeyCheck { transaction_id: 0, confirmation_value: z16() }
}

fn complete(event: fn(u8, ErrorCode, u64) -> HciEvent) -> Output {
    Output::Hci(event(1, ErrorCode::Success, BD))
}

fn host_reply(io: IoCapability, oob: OobDataPresent, auth: AuthenticationRequirements) -> Input {
    Input::Hci(HciCommand::IoCapabilityRequestReply {
        io_capability: io,
        oob_data_present: oob,
        authentication_requirements: auth,
    })
}

/// Script prefix: capability exchange and a P-256 key exchange, with the
/// host and peer supplying the given capabilities.
fn prefix_inputs(host: Input, peer: IoCapabilityFields) -> Vec<Input> {
    let mut inputs = vec![
        host,
        Input::Lmp(LmpPacket::IoCapabilityRes { transaction_id: 0, fields: peer }),
        in_accept(Opcode::EncapsulatedHeader),
    ];
    for _ in 0..4 {
        inputs.push(in_accept(Opcode::EncapsulatedPayload));
    }
    inputs.push(Input::Lmp(enc_header(64)));
    for _ in 0..4 {
        inputs.push(Input::Lmp(enc_payload()));
    }
    inputs
}

/// Expected trace prefix matching `prefix_inputs`.
fn prefix_outputs(
    local_fields: IoCapabilityFields,
    peer: (IoCapability, OobDataPresent, AuthenticationRequirements),
) -> Vec<Output> {
    let mut outputs = vec![
        Output::Hci(HciEvent::IoCapabilityRequest { bd_addr: BD }),
        Output::Hci(HciEvent::IoCapabilityRequestReplyComplete {
            num_hci_command_packets: 1,
            status: ErrorCode::Success,
            bd_addr: BD,
        }),
        Output::Lmp(LmpPacket::IoCapabilityReq { transaction_id: 0, fields: local_fields }),
        Output::Hci(HciEvent::IoCapabilityResponse {
            bd_addr: BD,
            io_capability: peer.0,
            oob_data_present: peer.1,
            authentication_requirements: peer.2,
        }),
        Output::Lmp(enc_header(64)),
    ];
    for _ in 0..4 {
        outputs.push(Output::Lmp(enc_payload()));
    }
    outputs.push(out_accept(Opcode::EncapsulatedHeader));
    for _ in 0..4 {
        outputs.push(out_accept(Opcode::EncapsulatedPayload));
    }
    outputs
}

fn display_yes_no() -> (IoCapability, OobDataPresent, AuthenticationRequirements) {
    (
        IoCapability::DisplayYesNo,
        OobDataPresent::NotPresent,
        AuthenticationRequirements::GeneralBondingMitmProtection,
    )
}

#[test]
fn numeric_comparaison_initiator_success() {
    let caps = display_yes_no();
    let mut inputs = prefix_inputs(host_reply(caps.0, caps.1, caps.2), fields(1, 0, 5));
    inputs.push(Input::Lmp(confirm()));
    inputs.push(in_accept(Opcode::SimplePairingNumber));
    inputs.push(Input::Lmp(number()));
    inputs.push(Input::Hci(HciCommand::UserConfirmationRequestReply));
    inputs.push(in_accept(Opcode::DhkeyCheck));
    inputs.push(Input::Lmp(dhkey()));
    inputs.push(Input::ChallengeResult { success: true });

    let mut ctx = Context::new(BD, true, inputs);
    let result = initiate(&mut ctx);
    assert_eq!(result, Ok(()));

    let mut expected = prefix_outputs(fields(1, 0, 5), caps);
    expected.push(Output::Lmp(number()));
    expected.push(out_accept(Opcode::SimplePairingNumber));
    expected.push(Output::Hci(HciEvent::UserConfirmationRequest { bd_addr: BD, numeric_value: 0 }));
    expected.push(complete(|n, s, b| HciEvent::UserConfirmationRequestReplyComplete {
        num_hci_command_packets: n,
        status: s,
        bd_addr: b,
    }));
    expected.push(Output::Lmp(dhkey()));
    expected.push(out_accept(Opcode::DhkeyCheck));
    expected.push(Output::Hci(HciEvent::SimplePairingComplete {
        status: ErrorCode::Success,
        bd_addr: BD,
    }));
    expected.push(Output::SendChallenge { transaction_id: 0, link_key: z16() });
    expected.push(Output::ReceiveChallenge { link_key: z16() });
    expected.push(Output::Hci(HciEvent::LinkKeyNotification {
        bd_addr: BD,
        link_key: z16(),
        key_type: KeyType::AuthenticatedP256,
    }));
    assert_eq!(ctx.outputs, expected);
}

#[test]
fn numeric_comparaison_initiator_failure_on_initiating_side() {
    let caps = display_yes_no();
    let mut inputs = prefix_inputs(host_reply(caps.0, caps.1, caps.2), fields(1, 0, 5));
    inputs.push(Input::Lmp(confirm()));
    inputs.push(in_accept(Opcode::SimplePairingNumber));
    inputs.push(Input::Lmp(number()));
    inputs.push(Input::Hci(HciCommand::UserConfirmationRequestNegativeReply));

    let mut ctx = Context::new(BD, true, inputs);
    let result = initiate(&mut ctx);
    assert_eq!(result, Err(PairingError::UserRejected));

    let mut expected = prefix_outputs(fields(1, 0, 5), caps);
    expected.push(Output::Lmp(number()));
    expected.push(out_accept(Opcode::SimplePairingNumber));
    expected.push(Output::Hci(HciEvent::UserConfirmationRequest { bd_addr: BD, numeric_value: 0 }));
    expected.push(complete(|n, s, b| HciEvent::UserConfirmationRequestNegativeReplyComplete {
        num_hci_command_packets: n,
        status: s,
        bd_addr: b,
    }));
    expected.push(Output::Lmp(LmpPacket::NumericComparaisonFailed { transaction_id: 0 }));
    expected.push(Output::Hci(HciEvent::SimplePairingComplete {
        status: ErrorCode::AuthenticationFailure,
        bd_addr: BD,
    }));
    assert_eq!(ctx.outputs, expected);
}

#[test]
fn numeric_comparaison_initiator_failure_on_responding_side() {
    let caps = display_yes_no();
    let mut inputs = prefix_inputs(host_reply(caps.0, caps.1, caps.2), fields(1, 0, 5));
    inputs.push(Input::Lmp(confirm()));
    inputs.push(in_accept(Opcode::SimplePairingNumber));
    inputs.push(Input::Lmp(number()));
    inputs.push(Input::Hci(HciCommand::UserConfirmationRequestReply));
    inputs.push(Input::Lmp(LmpPacket::NotAccepted {
        transaction_id: 0,
        not_accepted_opcode: Opcode::DhkeyCheck,
        error_code: 5,
    }));

    let mut ctx = Context::new(BD, true, inputs);
    let result = initiate(&mut ctx);
    assert_eq!(result, Err(PairingError::Stage2Rejected));

    let mut expected = prefix_outputs(fields(1, 0, 5), caps);
    expected.push(Output::Lmp(number()));
    expected.push(out_accept(Opcode::SimplePairingNumber));
    expected.push(Output::Hci(HciEvent::UserConfirmationRequest { bd_addr: BD, numeric_value: 0 }));
    expected.push(complete(|n, s, b| HciEvent::UserConfirmationRequestReplyComplete {
        num_hci_command_packets: n,
        status: s,
        bd_addr: b,
    }));
    expected.push(Output::Lmp(dhkey()));
    expected.push(Output::Hci(HciEvent::SimplePairingComplete {
        status: ErrorCode::AuthenticationFailure,
        bd_addr: BD,
    }));
    assert_eq!(ctx.outputs, expected);
}

#[test]
fn passkey_entry_initiator_success() {
    let local = (
        IoCapability::KeyboardOnly,
        OobDataPresent::NotPresent,
        AuthenticationRequirements::GeneralBondingMitmProtection,
    );
    let peer = (
        IoCapability::DisplayOnly,
        OobDataPresent::NotPresent,
        AuthenticationRequirements::GeneralBondingMitmProtection,
    );
    let mut inputs = prefix_inputs(host_reply(local.0, local.1, local.2), fields(0, 0, 5));
    inputs.push(Input::Hci(HciCommand::UserPasskeyRequestReply { passkey: 0 }));
    for _ in 0..20 {
        inputs.push(Input::Lmp(confirm()));
        inputs.push(in_accept(Opcode::SimplePairingNumber));
        inputs.push(Input::Lmp(number()));
    }
    inputs.push(in_accept(Opcode::DhkeyCheck));
    inputs.push(Input::Lmp(dhkey()));
    inputs.push(Input::ChallengeResult { success: true });

    let mut ctx = Context::new(BD, true, inputs);
    let result = initiate(&mut ctx);
    assert_eq!(result, Ok(()));

    let mut expected = prefix_outputs(fields(2, 0, 5), peer);
    expected.push(Output::Hci(HciEvent::UserPasskeyRequest { bd_addr: BD }));
    expected.push(complete(|n, s, b| HciEvent::UserPasskeyRequestReplyComplete {
        num_hci_command_packets: n,
        status: s,
        bd_addr: b,
    }));
    for _ in 0..20 {
        expected.push(Output::Lmp(confirm()));
        expected.push(Output::Lmp(number()));
        expected.push(out_accept(Opcode::SimplePairingNumber));
    }
    expected.push(Output::Lmp(dhkey()));
    expected.push(out_accept(Opcode::DhkeyCheck));
    expected.push(Output::Hci(HciEvent::SimplePairingComplete {
        status: ErrorCode::Success,
        bd_addr: BD,
    }));
    expected.push(Output::SendChallenge { transaction_id: 0, link_key: z16() });
    expected.push(Output::ReceiveChallenge { link_key: z16() });
    expected.push(Output::Hci(HciEvent::LinkKeyNotification {
        bd_addr: BD,
        link_key: z16(),
        key_type: KeyType::AuthenticatedP256,
    }));
    assert_eq!(ctx.outputs, expected);

    let confirms: usize = ctx
        .outputs
        .iter()
        .filter(|o| matches!(o, Output::Lmp(LmpPacket::SimplePairingConfirm { .. })))
        .count();
    assert_eq!(confirms, 20);
}

#[test]
fn passkey_entry_initiator_keypresses_then_reply() {
    let local = (
        IoCapability::KeyboardOnly,
        OobDataPresent::NotPresent,
        AuthenticationRequirements::GeneralBondingMitmProtection,
    );
    let mut inputs = prefix_inputs(host_reply(local.0, local.1, local.2), fields(0, 0, 5));
    inputs.push(Input::Hci(HciCommand::SendKeypressNotification));
    inputs.push(Input::Hci(HciCommand::SendKeypressNotification));
    inputs.push(Input::Hci(HciCommand::UserPasskeyRequestNegativeReply));

    let mut ctx = Context::new(BD, true, inputs);
    let result = initiate(&mut ctx);
    assert_eq!(result, Err(PairingError::UserRejected));

    let keypress_completes: usize = ctx
        .outputs
        .iter()
        .filter(|o| matches!(o, Output::Hci(HciEvent::SendKeypressNotificationComplete { .. })))
        .count();
    assert_eq!(keypress_completes, 2);
    assert_eq!(
        ctx.outputs.last(),
        Some(&Output::Hci(HciEvent::SimplePairingComplete {
            status: ErrorCode::AuthenticationFailure,
            bd_addr: BD,
        }))
    );
}

#[test]
fn just_works_initiator_uses_p192_unauthenticated_key() {
    let caps = (
        IoCapability::NoInputNoOutput,
        OobDataPresent::NotPresent,
        AuthenticationRequirements::GeneralBonding,
    );
    let mut inputs = vec![
        host_reply(caps.0, caps.1, caps.2),
        Input::Lmp(LmpPacket::IoCapabilityRes { transaction_id: 0, fields: fields(3, 0, 4) }),
        in_accept(Opcode::EncapsulatedHeader),
    ];
    for _ in 0..3 {
        inputs.push(in_accept(Opcode::EncapsulatedPayload));
    }
    inputs.push(Input::Lmp(enc_header(48)));
    for _ in 0..3 {
        inputs.push(Input::Lmp(enc_payload()));
    }
    inputs.push(Input::Lmp(confirm()));
    inputs.push(in_accept(Opcode::SimplePairingNumber));
    inputs.push(Input::Lmp(number()));
    inputs.push(Input::Hci(HciCommand::UserConfirmationRequestReply));
    inputs.push(in_accept(Opcode::DhkeyCheck));
    inputs.push(Input::Lmp(dhkey()));
    inputs.push(Input::ChallengeResult { success: true });

    let mut ctx = Context::new(BD, false, inputs);
    let result = initiate(&mut ctx);
    assert_eq!(result, Ok(()));

    let payloads: usize = ctx
        .outputs
        .iter()
        .filter(|o| matches!(o, Output::Lmp(LmpPacket::EncapsulatedPayload { .. })))
        .count();
    assert_eq!(payloads, 3);
    assert_eq!(
        ctx.outputs.last(),
        Some(&Output::Hci(HciEvent::LinkKeyNotification {
            bd_addr: BD,
            link_key: z16(),
            key_type: KeyType::UnauthenticatedP192,
        }))
    );
}

#[test]
fn out_of_band_initiator_success() {
    let local = (
        IoCapability::DisplayYesNo,
        OobDataPresent::P192Present,
        AuthenticationRequirements::GeneralBondingMitmProtection,
    );
    let peer = fields(1, 1, 5);
    let mut inputs = prefix_inputs(host_reply(local.0, local.1, local.2), peer);
    inputs.push(Input::Hci(HciCommand::RemoteOobDataRequestReply));
    inputs.push(Input::Lmp(confirm()));
    inputs.push(in_accept(Opcode::SimplePairingNumber));
    inputs.push(Input::Lmp(number()));
    inputs.push(in_accept(Opcode::DhkeyCheck));
    inputs.push(Input::Lmp(dhkey()));
    inputs.push(Input::ChallengeResult { success: true });

    let mut ctx = Context::new(BD, true, inputs);
    let result = initiate(&mut ctx);
    assert_eq!(result, Ok(()));

    let oob_requests: usize = ctx
        .outputs
        .iter()
        .filter(|o| matches!(o, Output::Hci(HciEvent::RemoteOobDataRequest { .. })))
        .count();
    assert_eq!(oob_requests, 1);
    // One confirm frame: the single out-of-band commitment round opens with
    // the local confirm.
    let confirms: usize = ctx
        .outputs
        .iter()
        .filter(|o| matches!(o, Output::Lmp(LmpPacket::SimplePairingConfirm { .. })))
        .count();
    assert_eq!(confirms, 1);
    assert_eq!(
        ctx.outputs.last(),
        Some(&Output::Hci(HciEvent::LinkKeyNotification {
            bd_addr: BD,
            link_key: z16(),
            key_type: KeyType::AuthenticatedP256,
        }))
    );
}

#[test]
fn commitment_mismatch_routes_to_authentication_failure() {
    let caps = display_yes_no();
    let mut inputs = prefix_inputs(host_reply(caps.0, caps.1, caps.2), fields(1, 0, 5));
    let mut wrong = z16();
    wrong[0] = 1;
    inputs.push(Input::Lmp(LmpPacket::SimplePairingConfirm {
        transaction_id: 0,
        commitment_value: wrong,
    }));

    let mut ctx = Context::new(BD, true, inputs);
    let result = initiate(&mut ctx);
    assert_eq!(result, Err(PairingError::CommitmentMismatch));
    assert_eq!(
        ctx.outputs.last(),
        Some(&Output::Hci(HciEvent::SimplePairingComplete {
            status: ErrorCode::AuthenticationFailure,
            bd_addr: BD,
        }))
    );
}

#[test]
fn invalid_key_size_is_rejected() {
    let caps = display_yes_no();
    let mut inputs = vec![
        host_reply(caps.0, caps.1, caps.2),
        Input::Lmp(LmpPacket::IoCapabilityRes { transaction_id: 0, fields: fields(1, 0, 5) }),
        in_accept(Opcode::EncapsulatedHeader),
    ];
    for _ in 0..4 {
        inputs.push(in_accept(Opcode::EncapsulatedPayload));
    }
    inputs.push(Input::Lmp(enc_header(32)));

    let mut ctx = Context::new(BD, true, inputs);
    let result = initiate(&mut ctx);
    assert_eq!(result, Err(PairingError::InvalidKeySize));
}

#[test]
fn invalid_peer_capability_is_rejected() {
    let caps = display_yes_no();
    let inputs = vec![
        host_reply(caps.0, caps.1, caps.2),
        Input::Lmp(LmpPacket::IoCapabilityRes { transaction_id: 0, fields: fields(9, 0, 5) }),
    ];
    let mut ctx = Context::new(BD, true, inputs);
    let result = initiate(&mut ctx);
    assert_eq!(result, Err(PairingError::InvalidPeerParameters));
}

#[test]
fn mismatched_accepted_opcode_stalls_the_machine() {
    let caps = display_yes_no();
    // The packet after the Encapsulated Header must be an Accepted (or Not
    // Accepted) for that same opcode; an Accepted for another opcode is
    // never routed to the awaiting machine.
    let inputs = vec![
        host_reply(caps.0, caps.1, caps.2),
        Input::Lmp(LmpPacket::IoCapabilityRes { transaction_id: 0, fields: fields(1, 0, 5) }),
        in_accept(Opcode::SimplePairingNumber),
    ];
    let mut ctx = Context::new(BD, true, inputs);
    let result = initiate(&mut ctx);
    assert_eq!(result, Err(PairingError::Stalled));
    assert_eq!(
        ctx.outputs.last(),
        Some(&Output::Lmp(enc_header(64)))
    );
}

#[test]
fn empty_script_stalls_after_first_request() {
    let mut ctx = Context::new(BD, true, Vec::new());
    let result = initiate(&mut ctx);
    assert_eq!(result, Err(PairingError::Stalled));
    assert_eq!(
        ctx.outputs,
        vec![Output::Hci(HciEvent::IoCapabilityRequest { bd_addr: BD })]
    );
}
