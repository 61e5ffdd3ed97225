//! Conformance scenarios for the pairing responder: the whole emitted
//! trace is compared against the expected event sequence.

use lmp::context::Context;
use lmp::packets::{
    HciCommand, HciEvent, Input, IoCapabilityFields, LmpPacket, Opcode, Output,
};
use lmp::pairing::respond;
use lmp::types::{
    AuthenticationRequirements, ErrorCode, IoCapability, KeyType, OobDataPresent, PairingError,
};

const BD: u64 = 0xB2;

fn z16() -> Vec<u8> {
    vec![0u8; 16]
}

fn fields(io: u8, oob: u8, auth: u8) -> IoCapabilityFields {
    IoCapabilityFields {
        io_capabilities: io,
        oob_authentication_data: oob,
        authentication_requirement: auth,
    }
}

fn in_accept(op: Opcode) -> Input {
    Input::Lmp(LmpPacket::Accepted { transaction_id: 0, accepted_opcode: op })
}

fn out_accept(op: Opcode) -> Output {
    Output::Lmp(LmpPacket::Accepted { transaction_id: 0, accepted_opcode: op })
}

fn enc_header(len: u8) -> LmpPacket {
    LmpPacket::EncapsulatedHeader {
        transaction_id: 0,
        major_type: 1,
        minor_type: 1,
        payload_length: len,
    }
}

fn enc_payload() -> LmpPacket {
    LmpPacket::EncapsulatedPayload { transaction_id: 0, data: z16() }
}

fn confirm() -> LmpPacket {
    LmpPacket::SimplePairingConfirm { transaction_id: 0, commitment_value: z16() }
}

fn number() -> LmpPacket {
    LmpPacket::SimplePairingNumber { transaction_id: 0, nonce: z16() }
}

fn dhkey() -> LmpPacket {
    LmpPacket::DhkeyCheck { transaction_id: 0, confirmation_value: z16() }
}

fn host_reply(io: IoCapability, oob: OobDataPresent, auth: AuthenticationRequirements) -> Input {
    Input::Hci(HciCommand::IoCapabilityRequestReply {
        io_capability: io,
        oob_data_present: oob,
        authentication_requirements: auth,
    })
}

/// Script prefix for a responder: the host's capability reply and a P-256
/// key exchange, peer key first.
fn prefix_inputs(host: Input) -> Vec<Input> {
    let mut inputs = vec![host, Input::Lmp(enc_header(64))];
    for _ in 0..4 {
        inputs.push(Input::Lmp(enc_payload()));
    }
    inputs.push(in_accept(Opcode::EncapsulatedHeader));
    for _ in 0..4 {
        inputs.push(in_accept(Opcode::EncapsulatedPayload));
    }
    inputs
}

/// Expected trace prefix matching `prefix_inputs`, after a peer request
/// with capabilities `peer` and a host reply mirrored as `local_fields`.
fn prefix_outputs(
    peer: (IoCapability, OobDataPresent, AuthenticationRequirements),
    local_fields: IoCapabilityFields,
) -> Vec<Output> {
    let mut outputs = vec![
        Output::Hci(HciEvent::IoCapabilityResponse {
            bd_addr: BD,
            io_capability: peer.0,
            oob_data_present: peer.1,
            authentication_requirements: peer.2,
        }),
        Output::Hci(HciEvent::IoCapabilityRequest { bd_addr: BD }),
        Output::Hci(HciEvent::IoCapabilityRequestReplyComplete {
            num_hci_command_packets: 1,
            status: ErrorCode::Success,
            bd_addr: BD,
        }),
        Output::Lmp(LmpPacket::IoCapabilityRes { transaction_id: 0, fields: local_fields }),
        out_accept(Opcode::EncapsulatedHeader),
    ];
    for _ in 0..4 {
        outputs.push(out_accept(Opcode::EncapsulatedPayload));
    }
    outputs.push(Output::Lmp(enc_header(64)));
    for _ in 0..4 {
        outputs.push(Output::Lmp(enc_payload()));
    }
    outputs
}

fn display_yes_no() -> (IoCapability, OobDataPresent, AuthenticationRequirements) {
    (
        IoCapability::DisplayYesNo,
        OobDataPresent::NotPresent,
        AuthenticationRequirements::GeneralBondingMitmProtection,
    )
}

/// Expected numeric-comparison Stage-1 trace on the responder side.
fn numeric_stage1_outputs(expected: &mut Vec<Output>, reply_positive: bool) {
    expected.push(Output::Lmp(confirm()));
    expected.push(out_accept(Opcode::SimplePairingNumber));
    expected.push(Output::Lmp(number()));
    expected.push(Output::Hci(HciEvent::UserConfirmationRequest { bd_addr: BD, numeric_value: 0 }));
    if reply_positive {
        expected.push(Output::Hci(HciEvent::UserConfirmationRequestReplyComplete {
            num_hci_command_packets: 1,
            status: ErrorCode::Success,
            bd_addr: BD,
        }));
    } else {
        expected.push(Output::Hci(HciEvent::UserConfirmationRequestNegativeReplyComplete {
            num_hci_command_packets: 1,
            status: ErrorCode::Success,
            bd_addr: BD,
        }));
    }
}

fn numeric_stage1_inputs(inputs: &mut Vec<Input>, reply: Input) {
    inputs.push(Input::Lmp(number()));
    inputs.push(in_accept(Opcode::SimplePairingNumber));
    inputs.push(reply);
}

#[test]
fn numeric_comparaison_responder_success() {
    let caps = display_yes_no();
    let mut inputs = prefix_inputs(host_reply(caps.0, caps.1, caps.2));
    numeric_stage1_inputs(&mut inputs, Input::Hci(HciCommand::UserConfirmationRequestReply));
    inputs.push(Input::Lmp(dhkey()));
    inputs.push(in_accept(Opcode::DhkeyCheck));
    inputs.push(Input::ChallengeResult { success: true });

    let mut ctx = Context::new(BD, true, inputs);
    let result = respond(&mut ctx, fields(1, 0, 5));
    assert_eq!(result, Ok(()));

    let mut expected = prefix_outputs(caps, fields(1, 0, 5));
    numeric_stage1_outputs(&mut expected, true);
    expected.push(out_accept(Opcode::DhkeyCheck));
    expected.push(Output::Lmp(dhkey()));
    expected.push(Output::Hci(HciEvent::SimplePairingComplete {
        status: ErrorCode::Success,
        bd_addr: BD,
    }));
    expected.push(Output::ReceiveChallenge { link_key: z16() });
    expected.push(Output::SendChallenge { transaction_id: 0, link_key: z16() });
    expected.push(Output::Hci(HciEvent::LinkKeyNotification {
        bd_addr: BD,
        link_key: z16(),
        key_type: KeyType::AuthenticatedP256,
    }));
    assert_eq!(ctx.outputs, expected);
}

#[test]
fn numeric_comparaison_responder_failure_on_initiating_side() {
    let caps = display_yes_no();
    let mut inputs = prefix_inputs(host_reply(caps.0, caps.1, caps.2));
    numeric_stage1_inputs(&mut inputs, Input::Hci(HciCommand::UserConfirmationRequestReply));
    inputs.push(Input::Lmp(LmpPacket::NumericComparaisonFailed { transaction_id: 0 }));

    let mut ctx = Context::new(BD, true, inputs);
    let result = respond(&mut ctx, fields(1, 0, 5));
    assert_eq!(result, Err(PairingError::PeerAborted));

    let mut expected = prefix_outputs(caps, fields(1, 0, 5));
    numeric_stage1_outputs(&mut expected, true);
    expected.push(Output::Hci(HciEvent::SimplePairingComplete {
        status: ErrorCode::AuthenticationFailure,
        bd_addr: BD,
    }));
    assert_eq!(ctx.outputs, expected);
}

#[test]
fn numeric_comparaison_responder_failure_on_responding_side() {
    let caps = display_yes_no();
    let mut inputs = prefix_inputs(host_reply(caps.0, caps.1, caps.2));
    numeric_stage1_inputs(
        &mut inputs,
        Input::Hci(HciCommand::UserConfirmationRequestNegativeReply),
    );
    inputs.push(Input::Lmp(dhkey()));

    let mut ctx = Context::new(BD, true, inputs);
    let result = respond(&mut ctx, fields(1, 0, 5));
    assert_eq!(result, Err(PairingError::UserRejected));

    let mut expected = prefix_outputs(caps, fields(1, 0, 5));
    numeric_stage1_outputs(&mut expected, false);
    expected.push(Output::Lmp(LmpPacket::NotAccepted {
        transaction_id: 0,
        not_accepted_opcode: Opcode::DhkeyCheck,
        error_code: 5,
    }));
    expected.push(Output::Hci(HciEvent::SimplePairingComplete {
        status: ErrorCode::AuthenticationFailure,
        bd_addr: BD,
    }));
    assert_eq!(ctx.outputs, expected);
}

#[test]
fn passkey_entry_responder_success() {
    let local = (
        IoCapability::KeyboardOnly,
        OobDataPresent::NotPresent,
        AuthenticationRequirements::GeneralBondingMitmProtection,
    );
    let peer = (
        IoCapability::DisplayOnly,
        OobDataPresent::NotPresent,
        AuthenticationRequirements::GeneralBondingMitmProtection,
    );
    let mut inputs = prefix_inputs(host_reply(local.0, local.1, local.2));
    inputs.push(Input::Hci(HciCommand::UserPasskeyRequestReply { passkey: 0 }));
    for _ in 0..20 {
        inputs.push(Input::Lmp(confirm()));
        inputs.push(Input::Lmp(number()));
        inputs.push(in_accept(Opcode::SimplePairingNumber));
    }
    inputs.push(Input::Lmp(dhkey()));
    inputs.push(in_accept(Opcode::DhkeyCheck));
    inputs.push(Input::ChallengeResult { success: true });

    let mut ctx = Context::new(BD, true, inputs);
    let result = respond(&mut ctx, fields(0, 0, 5));
    assert_eq!(result, Ok(()));

    let mut expected = prefix_outputs(peer, fields(2, 0, 5));
    expected.push(Output::Hci(HciEvent::UserPasskeyRequest { bd_addr: BD }));
    expected.push(Output::Hci(HciEvent::UserPasskeyRequestReplyComplete {
        num_hci_command_packets: 1,
        status: ErrorCode::Success,
        bd_addr: BD,
    }));
    for _ in 0..20 {
        expected.push(Output::Lmp(confirm()));
        expected.push(out_accept(Opcode::SimplePairingNumber));
        expected.push(Output::Lmp(number()));
    }
    expected.push(out_accept(Opcode::DhkeyCheck));
    expected.push(Output::Lmp(dhkey()));
    expected.push(Output::Hci(HciEvent::SimplePairingComplete {
        status: ErrorCode::Success,
        bd_addr: BD,
    }));
    expected.push(Output::ReceiveChallenge { link_key: z16() });
    expected.push(Output::SendChallenge { transaction_id: 0, link_key: z16() });
    expected.push(Output::Hci(HciEvent::LinkKeyNotification {
        bd_addr: BD,
        link_key: z16(),
        key_type: KeyType::AuthenticatedP256,
    }));
    assert_eq!(ctx.outputs, expected);

    let confirms: usize = ctx
        .outputs
        .iter()
        .filter(|o| matches!(o, Output::Lmp(LmpPacket::SimplePairingConfirm { .. })))
        .count();
    assert_eq!(confirms, 20);
}

#[test]
fn out_of_band_responder_rejection_is_swallowed() {
    let local = (
        IoCapability::DisplayYesNo,
        OobDataPresent::P192Present,
        AuthenticationRequirements::GeneralBondingMitmProtection,
    );
    let mut inputs = prefix_inputs(host_reply(local.0, local.1, local.2));
    inputs.push(Input::Hci(HciCommand::RemoteOobDataRequestNegativeReply));
    inputs.push(Input::Lmp(confirm()));
    inputs.push(Input::Lmp(number()));
    inputs.push(in_accept(Opcode::SimplePairingNumber));
    inputs.push(Input::Lmp(dhkey()));
    inputs.push(in_accept(Opcode::DhkeyCheck));
    inputs.push(Input::ChallengeResult { success: true });

    let mut ctx = Context::new(BD, true, inputs);
    let result = respond(&mut ctx, fields(1, 1, 5));
    assert_eq!(result, Ok(()));

    let negative_completes: usize = ctx
        .outputs
        .iter()
        .filter(|o| {
            matches!(
                o,
                Output::Hci(HciEvent::RemoteOobDataRequestNegativeReplyComplete { .. })
            )
        })
        .count();
    assert_eq!(negative_completes, 1);
    assert_eq!(
        ctx.outputs.last(),
        Some(&Output::Hci(HciEvent::LinkKeyNotification {
            bd_addr: BD,
            link_key: z16(),
            key_type: KeyType::AuthenticatedP256,
        }))
    );
}

#[test]
fn responder_mirrors_p192_key_size() {
    let caps = (
        IoCapability::NoInputNoOutput,
        OobDataPresent::NotPresent,
        AuthenticationRequirements::GeneralBonding,
    );
    let mut inputs = vec![host_reply(caps.0, caps.1, caps.2), Input::Lmp(enc_header(48))];
    for _ in 0..3 {
        inputs.push(Input::Lmp(enc_payload()));
    }
    inputs.push(in_accept(Opcode::EncapsulatedHeader));
    for _ in 0..3 {
        inputs.push(in_accept(Opcode::EncapsulatedPayload));
    }
    inputs.push(Input::Lmp(number()));
    inputs.push(in_accept(Opcode::SimplePairingNumber));
    inputs.push(Input::Hci(HciCommand::UserConfirmationRequestReply));
    inputs.push(Input::Lmp(dhkey()));
    inputs.push(in_accept(Opcode::DhkeyCheck));
    inputs.push(Input::ChallengeResult { success: true });

    let mut ctx = Context::new(BD, false, inputs);
    let result = respond(&mut ctx, fields(3, 0, 4));
    assert_eq!(result, Ok(()));

    let sent_headers: Vec<&Output> = ctx
        .outputs
        .iter()
        .filter(|o| matches!(o, Output::Lmp(LmpPacket::EncapsulatedHeader { .. })))
        .collect();
    assert_eq!(sent_headers, vec![&Output::Lmp(enc_header(48))]);
    let payloads: usize = ctx
        .outputs
        .iter()
        .filter(|o| matches!(o, Output::Lmp(LmpPacket::EncapsulatedPayload { .. })))
        .count();
    assert_eq!(payloads, 3);
    assert_eq!(
        ctx.outputs.last(),
        Some(&Output::Hci(HciEvent::LinkKeyNotification {
            bd_addr: BD,
            link_key: z16(),
            key_type: KeyType::UnauthenticatedP192,
        }))
    );
}

#[test]
fn responder_challenge_failure_is_silent() {
    let caps = display_yes_no();
    let mut inputs = prefix_inputs(host_reply(caps.0, caps.1, caps.2));
    numeric_stage1_inputs(&mut inputs, Input::Hci(HciCommand::UserConfirmationRequestReply));
    inputs.push(Input::Lmp(dhkey()));
    inputs.push(in_accept(Opcode::DhkeyCheck));
    inputs.push(Input::ChallengeResult { success: false });

    let mut ctx = Context::new(BD, true, inputs);
    let result = respond(&mut ctx, fields(1, 0, 5));
    assert_eq!(result, Err(PairingError::AuthenticationFailed));

    // The success report was already emitted; after the failed challenge no
    // further event follows, in particular no link-key notification.
    assert_eq!(
        ctx.outputs.last(),
        Some(&Output::SendChallenge { transaction_id: 0, link_key: z16() })
    );
    let notifications: usize = ctx
        .outputs
        .iter()
        .filter(|o| matches!(o, Output::Hci(HciEvent::LinkKeyNotification { .. })))
        .count();
    assert_eq!(notifications, 0);
}
