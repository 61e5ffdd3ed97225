//! Initiator and responder driven against each other: under each of the
//! four authentication methods both sides complete, and every LMP packet
//! one side consumes is exactly what the other side emitted, in order.

use lmp::context::Context;
use lmp::packets::{
    HciCommand, Input, IoCapabilityFields, LmpPacket, Opcode, Output,
};
use lmp::pairing::{initiate, respond};
use lmp::types::{AuthenticationRequirements, IoCapability, OobDataPresent};

const BD: u64 = 0xB3;

fn z16() -> Vec<u8> {
    vec![0u8; 16]
}

fn fields(io: u8, oob: u8, auth: u8) -> IoCapabilityFields {
    IoCapabilityFields {
        io_capabilities: io,
        oob_authentication_data: oob,
        authentication_requirement: auth,
    }
}

fn in_accept(op: Opcode) -> Input {
    Input::Lmp(LmpPacket::Accepted { transaction_id: 0, accepted_opcode: op })
}

fn enc_header(len: u8) -> LmpPacket {
    LmpPacket::EncapsulatedHeader {
        transaction_id: 0,
        major_type: 1,
        minor_type: 1,
        payload_length: len,
    }
}

fn enc_payload() -> LmpPacket {
    LmpPacket::EncapsulatedPayload { transaction_id: 0, data: z16() }
}

fn confirm() -> LmpPacket {
    LmpPacket::SimplePairingConfirm { transaction_id: 0, commitment_value: z16() }
}

fn number() -> LmpPacket {
    LmpPacket::SimplePairingNumber { transaction_id: 0, nonce: z16() }
}

fn dhkey() -> LmpPacket {
    LmpPacket::DhkeyCheck { transaction_id: 0, confirmation_value: z16() }
}

fn host_reply(io: IoCapability, oob: OobDataPresent, auth: AuthenticationRequirements) -> Input {
    Input::Hci(HciCommand::IoCapabilityRequestReply {
        io_capability: io,
        oob_data_present: oob,
        authentication_requirements: auth,
    })
}

fn lmp_inputs(inputs: &[Input]) -> Vec<LmpPacket> {
    inputs
        .iter()
        .filter_map(|i| match i {
            Input::Lmp(p) => Some(p.clone()),
            _ => None,
        })
        .collect()
}

fn lmp_outputs(outputs: &[Output]) -> Vec<LmpPacket> {
    outputs
        .iter()
        .filter_map(|o| match o {
            Output::Lmp(p) => Some(p.clone()),
            _ => None,
        })
        .collect()
}

/// Runs both sides against their scripts and checks that the LMP streams
/// mirror each other exactly.
fn drive_pair(
    initiator_inputs: Vec<Input>,
    responder_inputs: Vec<Input>,
    request: IoCapabilityFields,
    key_size: u8,
) {
    let secure_connections = key_size == 64;
    let initiator_script = initiator_inputs.clone();
    let responder_script = responder_inputs.clone();

    let mut ictx = Context::new(BD, secure_connections, initiator_inputs);
    assert_eq!(initiate(&mut ictx), Ok(()));
    let mut rctx = Context::new(BD, secure_connections, responder_inputs);
    assert_eq!(respond(&mut rctx, request), Ok(()));

    let sent_by_initiator = lmp_outputs(&ictx.outputs);
    // The first initiator packet is the IO Capability Request that entered
    // the responder as its argument.
    assert_eq!(
        sent_by_initiator[0],
        LmpPacket::IoCapabilityReq { transaction_id: 0, fields: request }
    );
    assert_eq!(sent_by_initiator[1..].to_vec(), lmp_inputs(&responder_script));
    assert_eq!(lmp_outputs(&rctx.outputs), lmp_inputs(&initiator_script));
}

fn key_exchange_initiator(inputs: &mut Vec<Input>, len: u8) {
    inputs.push(in_accept(Opcode::EncapsulatedHeader));
    for _ in 0..(len / 16) {
        inputs.push(in_accept(Opcode::EncapsulatedPayload));
    }
    inputs.push(Input::Lmp(enc_header(len)));
    for _ in 0..(len / 16) {
        inputs.push(Input::Lmp(enc_payload()));
    }
}

fn key_exchange_responder(inputs: &mut Vec<Input>, len: u8) {
    inputs.push(Input::Lmp(enc_header(len)));
    for _ in 0..(len / 16) {
        inputs.push(Input::Lmp(enc_payload()));
    }
    inputs.push(in_accept(Opcode::EncapsulatedHeader));
    for _ in 0..(len / 16) {
        inputs.push(in_accept(Opcode::EncapsulatedPayload));
    }
}

fn stage2_initiator(inputs: &mut Vec<Input>) {
    inputs.push(in_accept(Opcode::DhkeyCheck));
    inputs.push(Input::Lmp(dhkey()));
    inputs.push(Input::ChallengeResult { success: true });
}

fn stage2_responder(inputs: &mut Vec<Input>) {
    inputs.push(Input::Lmp(dhkey()));
    inputs.push(in_accept(Opcode::DhkeyCheck));
    inputs.push(Input::ChallengeResult { success: true });
}

#[test]
fn pair_completes_numeric_comparison() {
    let caps = (
        IoCapability::DisplayYesNo,
        OobDataPresent::NotPresent,
        AuthenticationRequirements::GeneralBondingMitmProtection,
    );
    let wire = fields(1, 0, 5);

    let mut ii = vec![
        host_reply(caps.0, caps.1, caps.2),
        Input::Lmp(LmpPacket::IoCapabilityRes { transaction_id: 0, fields: wire }),
    ];
    key_exchange_initiator(&mut ii, 64);
    ii.push(Input::Lmp(confirm()));
    ii.push(in_accept(Opcode::SimplePairingNumber));
    ii.push(Input::Lmp(number()));
    ii.push(Input::Hci(HciCommand::UserConfirmationRequestReply));
    stage2_initiator(&mut ii);

    let mut ri = vec![host_reply(caps.0, caps.1, caps.2)];
    key_exchange_responder(&mut ri, 64);
    ri.push(Input::Lmp(number()));
    ri.push(in_accept(Opcode::SimplePairingNumber));
    ri.push(Input::Hci(HciCommand::UserConfirmationRequestReply));
    stage2_responder(&mut ri);

    drive_pair(ii, ri, wire, 64);
}

#[test]
fn pair_completes_just_works() {
    let caps = (
        IoCapability::NoInputNoOutput,
        OobDataPresent::NotPresent,
        AuthenticationRequirements::GeneralBonding,
    );
    let wire = fields(3, 0, 4);

    let mut ii = vec![
        host_reply(caps.0, caps.1, caps.2),
        Input::Lmp(LmpPacket::IoCapabilityRes { transaction_id: 0, fields: wire }),
    ];
    key_exchange_initiator(&mut ii, 48);
    ii.push(Input::Lmp(confirm()));
    ii.push(in_accept(Opcode::SimplePairingNumber));
    ii.push(Input::Lmp(number()));
    ii.push(Input::Hci(HciCommand::UserConfirmationRequestReply));
    stage2_initiator(&mut ii);

    let mut ri = vec![host_reply(caps.0, caps.1, caps.2)];
    key_exchange_responder(&mut ri, 48);
    ri.push(Input::Lmp(number()));
    ri.push(in_accept(Opcode::SimplePairingNumber));
    ri.push(Input::Hci(HciCommand::UserConfirmationRequestReply));
    stage2_responder(&mut ri);

    drive_pair(ii, ri, wire, 48);
}

#[test]
fn pair_completes_passkey_entry() {
    let keyboard = (
        IoCapability::KeyboardOnly,
        OobDataPresent::NotPresent,
        AuthenticationRequirements::GeneralBondingMitmProtection,
    );
    let display = (
        IoCapability::DisplayOnly,
        OobDataPresent::NotPresent,
        AuthenticationRequirements::GeneralBondingMitmProtection,
    );
    let wire = fields(2, 0, 5);

    let mut ii = vec![
        host_reply(keyboard.0, keyboard.1, keyboard.2),
        Input::Lmp(LmpPacket::IoCapabilityRes { transaction_id: 0, fields: fields(0, 0, 5) }),
    ];
    key_exchange_initiator(&mut ii, 64);
    ii.push(Input::Hci(HciCommand::UserPasskeyRequestReply { passkey: 0 }));
    for _ in 0..20 {
        ii.push(Input::Lmp(confirm()));
        ii.push(in_accept(Opcode::SimplePairingNumber));
        ii.push(Input::Lmp(number()));
    }
    stage2_initiator(&mut ii);

    let mut ri = vec![host_reply(display.0, display.1, display.2)];
    key_exchange_responder(&mut ri, 64);
    for _ in 0..20 {
        ri.push(Input::Lmp(confirm()));
        ri.push(Input::Lmp(number()));
        ri.push(in_accept(Opcode::SimplePairingNumber));
    }
    stage2_responder(&mut ri);

    drive_pair(ii, ri, wire, 64);
}

#[test]
fn pair_completes_out_of_band() {
    let caps = (
        IoCapability::DisplayYesNo,
        OobDataPresent::P192Present,
        AuthenticationRequirements::GeneralBondingMitmProtection,
    );
    let wire = fields(1, 1, 5);

    let mut ii = vec![
        host_reply(caps.0, caps.1, caps.2),
        Input::Lmp(LmpPacket::IoCapabilityRes { transaction_id: 0, fields: wire }),
    ];
    key_exchange_initiator(&mut ii, 64);
    ii.push(Input::Hci(HciCommand::RemoteOobDataRequestReply));
    ii.push(Input::Lmp(confirm()));
    ii.push(in_accept(Opcode::SimplePairingNumber));
    ii.push(Input::Lmp(number()));
    stage2_initiator(&mut ii);

    let mut ri = vec![host_reply(caps.0, caps.1, caps.2)];
    key_exchange_responder(&mut ri, 64);
    ri.push(Input::Hci(HciCommand::RemoteOobDataRequestReply));
    ri.push(Input::Lmp(confirm()));
    ri.push(Input::Lmp(number()));
    ri.push(in_accept(Opcode::SimplePairingNumber));
    stage2_responder(&mut ri);

    drive_pair(ii, ri, wire, 64);
}
