//! The pairing coordinator: the initiator and responder runs that compose
//! capability exchange, public-key exchange, Stage-1, the Stage-2 DH-key
//! check, the mutual challenge/response step, and the link-key
//! notification.
//!
//! Every failure that the machine observes (rather than a stall, which
//! leaves it suspended) concludes with a Simple Pairing Complete carrying
//! an authentication failure, except a challenge/response failure, whose
//! collaborator has already emitted its own events.

use vstd::prelude::*;
use crate::bytes::{zero_bytes, zeros};
use crate::context::{
    Context, Io, SendResult, Stage2Gate, io_of, same_env, spec_challenge_result,
    spec_recv_dhkey_check, spec_recv_iocap_reply, spec_recv_iocap_res, spec_recv_stage2_gate,
    spec_send_accepted,
};
use crate::key::{P192_PUBLIC_KEY_SIZE, P256_PUBLIC_KEY_SIZE, PublicKey};
use crate::packets::{
    HciEvent, HciEventView, Input, IoCapabilityFields, LmpPacket, LmpPacketView,
    NUM_HCI_COMMAND_PACKETS, Opcode, Output, OutputView, lemma_trace_view_push, view_accepted,
};
use crate::stage1::{
    receive_commitment, receive_commitment_rounds, remote_oob_data_request, send_commitment,
    send_commitment_rounds, spec_receive_commitment, spec_receive_commitment_rounds,
    spec_remote_oob_data_request, spec_send_commitment, spec_send_commitment_rounds,
    spec_user_confirmation_request, spec_user_passkey_request, user_confirmation_request,
    user_passkey_request,
};
use crate::transfer::{
    receive_public_key, send_public_key, spec_receive_public_key, spec_send_public_key,
};
use crate::types::{
    AuthenticationMethod, AuthenticationParams, AuthenticationRequirements, ErrorCode,
    IoCapability, KeyType, OobDataPresent, PairingError, authentication_method,
    spec_authentication_method,
};

verus! {

/// Number of commitment rounds a Passkey Entry Stage-1 runs.
pub const PASSKEY_ENTRY_REPEAT_NUMBER: usize = 20;

/// Size of a DH-key confirmation value.
pub const CONFIRMATION_VALUE_SIZE: usize = 16;

/// The view of an outbound Simple Pairing Complete.
pub open spec fn view_pairing_complete(status: ErrorCode, bd_addr: u64) -> OutputView {
    OutputView::Hci(HciEventView::SimplePairingComplete { status, bd_addr })
}

/// The view of the outbound Link Key Notification with the zero-stubbed
/// key.
pub open spec fn view_link_key_notification(bd_addr: u64, key_type: KeyType) -> OutputView {
    OutputView::Hci(
        HciEventView::LinkKeyNotification { bd_addr, link_key: zeros(16), key_type },
    )
}

/// The view of an outbound DH-key Check with the zero-stubbed confirmation.
pub open spec fn view_dhkey_check() -> OutputView {
    OutputView::Lmp(
        LmpPacketView::DhkeyCheck { transaction_id: 0, confirmation_value: zeros(16) },
    )
}

/// The wire fields mirroring a capability tuple.
pub open spec fn spec_fields_of(params: AuthenticationParams) -> IoCapabilityFields {
    IoCapabilityFields {
        io_capabilities: params.io_capability.spec_to_u8(),
        oob_authentication_data: params.oob_data_present.spec_to_u8(),
        authentication_requirement: params.authentication_requirements.spec_to_u8(),
    }
}

/// The capability tuple encoded by wire fields, when all three are in
/// range.
pub open spec fn spec_params_of(fields: IoCapabilityFields) -> Option<AuthenticationParams> {
    match (
        IoCapability::spec_from_u8(fields.io_capabilities),
        OobDataPresent::spec_from_u8(fields.oob_authentication_data),
        AuthenticationRequirements::spec_from_u8(fields.authentication_requirement),
    ) {
        (Some(io_capability), Some(oob_data_present), Some(authentication_requirements)) => Some(
            AuthenticationParams {
                io_capability,
                oob_data_present,
                authentication_requirements,
            },
        ),
        _ => None,
    }
}

/// The key type for a method and a peer key of the given length.
pub open spec fn spec_key_type_for(method: AuthenticationMethod, key_len: nat) -> KeyType {
    if method is NumericComparaisonJustWork {
        if key_len == 48 {
            KeyType::UnauthenticatedP192
        } else {
            KeyType::UnauthenticatedP256
        }
    } else {
        if key_len == 48 {
            KeyType::AuthenticatedP192
        } else {
            KeyType::AuthenticatedP256
        }
    }
}

/// Effect of the initiator's local capability exchange: ask the host, relay
/// its reply to the peer as an LMP IO Capability Request.
pub open spec fn spec_initiator_local_capability(inputs: Seq<Input>, bd_addr: u64, io: Io) -> (
    Io,
    Option<AuthenticationParams>,
) {
    let io0 = Io {
        cursor: io.cursor,
        sent: io.sent.push(OutputView::Hci(HciEventView::IoCapabilityRequest { bd_addr })),
    };
    match spec_recv_iocap_reply(inputs, io0.cursor) {
        None => (io0, None),
        Some(params) => (
            Io {
                cursor: io0.cursor + 1,
                sent: io0.sent.push(
                    OutputView::Hci(
                        HciEventView::IoCapabilityRequestReplyComplete {
                            num_hci_command_packets: NUM_HCI_COMMAND_PACKETS,
                            status: ErrorCode::Success,
                            bd_addr,
                        },
                    ),
                ).push(
                    OutputView::Lmp(
                        LmpPacketView::IoCapabilityReq {
                            transaction_id: 0,
                            fields: spec_fields_of(params),
                        },
                    ),
                ),
            },
            Some(params),
        ),
    }
}

/// Effect of the initiator's peer capability exchange: the peer's LMP IO
/// Capability Response is decoded and forwarded to the host.
pub open spec fn spec_initiator_peer_capability(inputs: Seq<Input>, bd_addr: u64, io: Io) -> (
    Io,
    Result<AuthenticationParams, PairingError>,
) {
    match spec_recv_iocap_res(inputs, io.cursor) {
        None => (io, Err(PairingError::Stalled)),
        Some(fields) => {
            let io1 = Io { cursor: io.cursor + 1, sent: io.sent };
            match spec_params_of(fields) {
                None => (io1, Err(PairingError::InvalidPeerParameters)),
                Some(params) => (
                    Io {
                        cursor: io1.cursor,
                        sent: io1.sent.push(
                            OutputView::Hci(
                                HciEventView::IoCapabilityResponse {
                                    bd_addr,
                                    io_capability: params.io_capability,
                                    oob_data_present: params.oob_data_present,
                                    authentication_requirements:
                                        params.authentication_requirements,
                                },
                            ),
                        ),
                    },
                    Ok(params),
                ),
            }
        },
    }
}

/// Effect of the initiator's Stage-1 dispatch over the selected method.
pub open spec fn spec_initiator_stage1(
    inputs: Seq<Input>,
    bd_addr: u64,
    io: Io,
    initiator: AuthenticationParams,
    responder: AuthenticationParams,
) -> (Io, Result<(), PairingError>) {
    match spec_authentication_method(initiator, responder) {
        AuthenticationMethod::NumericComparaisonJustWork
        | AuthenticationMethod::NumericComparaisonUserConfirm => {
            let s = spec_send_commitment(inputs, io, true);
            match s.1 {
                Err(e) => (s.0, Err(e)),
                Ok(_) => spec_user_confirmation_request(inputs, bd_addr, s.0),
            }
        },
        AuthenticationMethod::PasskeyEntry => {
            let first = if initiator.io_capability is KeyboardOnly {
                spec_user_passkey_request(inputs, bd_addr, io)
            } else {
                (
                    Io {
                        cursor: io.cursor,
                        sent: io.sent.push(
                            OutputView::Hci(
                                HciEventView::UserPasskeyNotification { bd_addr, passkey: 0 },
                            ),
                        ),
                    },
                    Ok(()),
                )
            };
            match first.1 {
                Err(e) => (first.0, Err(e)),
                Ok(_) => spec_send_commitment_rounds(
                    inputs,
                    first.0,
                    PASSKEY_ENTRY_REPEAT_NUMBER as nat,
                ),
            }
        },
        AuthenticationMethod::OutOfBand => {
            let first = if !(initiator.oob_data_present is NotPresent) {
                spec_remote_oob_data_request(inputs, bd_addr, io)
            } else {
                (io, Ok(()))
            };
            match first.1 {
                Err(e) => (first.0, Err(e)),
                Ok(_) => spec_send_commitment(inputs, first.0, false),
            }
        },
    }
}

/// Effect of the initiator's Stage-2: the local DH-key check awaiting its
/// Accepted, then the peer's DH-key check answered with an Accepted, then
/// the success event.
pub open spec fn spec_initiator_stage2(inputs: Seq<Input>, bd_addr: u64, io: Io) -> (
    Io,
    Result<(), PairingError>,
) {
    let sent0 = io.sent.push(view_dhkey_check());
    match spec_send_accepted(inputs, io.cursor, Opcode::DhkeyCheck) {
        SendResult::Stalled => (Io { cursor: io.cursor, sent: sent0 }, Err(PairingError::Stalled)),
        SendResult::NotAccepted => (
            Io {
                cursor: io.cursor + 1,
                sent: sent0.push(view_pairing_complete(ErrorCode::AuthenticationFailure, bd_addr)),
            },
            Err(PairingError::Stage2Rejected),
        ),
        SendResult::Accepted => {
            let io1 = Io { cursor: io.cursor + 1, sent: sent0 };
            if !spec_recv_dhkey_check(inputs, io1.cursor) {
                (io1, Err(PairingError::Stalled))
            } else {
                (
                    Io {
                        cursor: io1.cursor + 1,
                        sent: io1.sent.push(view_accepted(0, Opcode::DhkeyCheck)).push(
                            view_pairing_complete(ErrorCode::Success, bd_addr),
                        ),
                    },
                    Ok(()),
                )
            }
        },
    }
}

/// Effect of the initiator's challenge/response step and link-key
/// notification: the challenge goes out first, then the peer's is taken;
/// a failed challenge returns silently, a passed one concludes with the
/// notification.
pub open spec fn spec_initiator_challenge(
    inputs: Seq<Input>,
    bd_addr: u64,
    io: Io,
    key_type: KeyType,
) -> (Io, Result<(), PairingError>) {
    let sent0 = io.sent.push(
        (OutputView::SendChallenge { transaction_id: 0, link_key: zeros(16) }),
    );
    match spec_challenge_result(inputs, io.cursor) {
        None => (Io { cursor: io.cursor, sent: sent0 }, Err(PairingError::Stalled)),
        Some(passed) => {
            let io1 = Io {
                cursor: io.cursor + 1,
                sent: sent0.push((OutputView::ReceiveChallenge { link_key: zeros(16) })),
            };
            if !passed {
                (io1, Err(PairingError::AuthenticationFailed))
            } else {
                (
                    Io {
                        cursor: io1.cursor,
                        sent: io1.sent.push(view_link_key_notification(bd_addr, key_type)),
                    },
                    Ok(()),
                )
            }
        },
    }
}

/// Effect of a whole initiator run over a script.
pub open spec fn spec_initiate(
    inputs: Seq<Input>,
    bd_addr: u64,
    secure_connections: bool,
    io: Io,
) -> (Io, Result<(), PairingError>) {
    let a = spec_initiator_local_capability(inputs, bd_addr, io);
    match a.1 {
        None => (a.0, Err(PairingError::Stalled)),
        Some(initiator) => {
            let b = spec_initiator_peer_capability(inputs, bd_addr, a.0);
            match b.1 {
                Err(e) => (b.0, Err(e)),
                Ok(responder) => {
                    let local_key = zeros(
                        if secure_connections {
                            64nat
                        } else {
                            48nat
                        },
                    );
                    let c = spec_send_public_key(inputs, b.0, 0, local_key);
                    if !c.1 {
                        (c.0, Err(PairingError::Stalled))
                    } else {
                        let d = spec_receive_public_key(inputs, c.0, 0);
                        match d.1 {
                            Err(e) => (d.0, Err(e)),
                            Ok(peer_key) => {
                                let e = spec_initiator_stage1(
                                    inputs,
                                    bd_addr,
                                    d.0,
                                    initiator,
                                    responder,
                                );
                                match e.1 {
                                    Err(PairingError::Stalled) => (
                                        e.0,
                                        Err(PairingError::Stalled),
                                    ),
                                    Err(err) => (
                                        Io {
                                            cursor: e.0.cursor,
                                            sent: e.0.sent.push(
                                                OutputView::Lmp(
                                                    LmpPacketView::NumericComparaisonFailed {
                                                        transaction_id: 0,
                                                    },
                                                ),
                                            ).push(
                                                view_pairing_complete(
                                                    ErrorCode::AuthenticationFailure,
                                                    bd_addr,
                                                ),
                                            ),
                                        },
                                        Err(err),
                                    ),
                                    Ok(_) => {
                                        let f = spec_initiator_stage2(inputs, bd_addr, e.0);
                                        match f.1 {
                                            Err(err) => (f.0, Err(err)),
                                            Ok(_) => spec_initiator_challenge(
                                                inputs,
                                                bd_addr,
                                                f.0,
                                                spec_key_type_for(
                                                    spec_authentication_method(
                                                        initiator,
                                                        responder,
                                                    ),
                                                    peer_key.len(),
                                                ),
                                            ),
                                        }
                                    },
                                }
                            },
                        }
                    }
                },
            }
        },
    }
}

/// Drives one pairing as the initiator, from the host's wish to pair to the
/// link-key notification. The whole emitted trace and the outcome are fixed
/// by the script.
pub fn initiate(ctx: &mut Context) -> (r: Result<(), PairingError>)
    ensures
        same_env(old(ctx), final(ctx)),
        ({
            let s = spec_initiate(
                old(ctx).inputs@,
                old(ctx).bd_addr,
                old(ctx).secure_connections,
                io_of(old(ctx)),
            );
            io_of(final(ctx)) == s.0 && r == s.1
        }),
{
    let bd_addr = ctx.peer_address();

    // Capability exchange, local side.
    let request = HciEvent::IoCapabilityRequest { bd_addr };
    let ghost request_snapshot = request;
    let ghost outputs_before = ctx.outputs@;
    ctx.send_hci_event(request);
    proof {
        lemma_trace_view_push(outputs_before, Output::Hci(request_snapshot));
    }
    let initiator = match ctx.receive_io_capability_request_reply() {
        None => {
            return Err(PairingError::Stalled);
        },
        Some(params) => params,
    };
    let complete = HciEvent::IoCapabilityRequestReplyComplete {
        num_hci_command_packets: NUM_HCI_COMMAND_PACKETS,
        status: ErrorCode::Success,
        bd_addr,
    };
    let ghost complete_snapshot = complete;
    let ghost outputs_before = ctx.outputs@;
    ctx.send_hci_event(complete);
    proof {
        lemma_trace_view_push(outputs_before, Output::Hci(complete_snapshot));
    }
    let relay = LmpPacket::IoCapabilityReq {
        transaction_id: 0,
        fields: IoCapabilityFields {
            io_capabilities: initiator.io_capability.to_u8(),
            oob_authentication_data: initiator.oob_data_present.to_u8(),
            authentication_requirement: initiator.authentication_requirements.to_u8(),
        },
    };
    let ghost relay_snapshot = relay;
    let ghost outputs_before = ctx.outputs@;
    ctx.send_lmp_packet(relay);
    proof {
        lemma_trace_view_push(outputs_before, Output::Lmp(relay_snapshot));
    }

    // Capability exchange, peer side.
    let fields = match ctx.receive_io_capability_res() {
        None => {
            return Err(PairingError::Stalled);
        },
        Some(fields) => fields,
    };
    let responder = match decode_params(fields) {
        None => {
            return Err(PairingError::InvalidPeerParameters);
        },
        Some(params) => params,
    };
    let response = HciEvent::IoCapabilityResponse {
        bd_addr,
        io_capability: responder.io_capability,
        oob_data_present: responder.oob_data_present,
        authentication_requirements: responder.authentication_requirements,
    };
    let ghost response_snapshot = response;
    let ghost outputs_before = ctx.outputs@;
    ctx.send_hci_event(response);
    proof {
        lemma_trace_view_push(outputs_before, Output::Hci(response_snapshot));
    }

    // Public-key exchange.
    let key_size: usize = if ctx.supported_on_both_page1() {
        P256_PUBLIC_KEY_SIZE
    } else {
        P192_PUBLIC_KEY_SIZE
    };
    let local_key = match PublicKey::generate(key_size) {
        None => {
            return Err(PairingError::InvalidKeySize);
        },
        Some(key) => key,
    };
    if let Err(e) = send_public_key(ctx, 0, &local_key) {
        return Err(e);
    }
    let peer_key = match receive_public_key(ctx, 0) {
        Err(e) => {
            return Err(e);
        },
        Ok(key) => key,
    };

    // Authentication Stage 1.
    let auth_method = authentication_method(initiator, responder);
    let stage1 = initiator_stage1(ctx, initiator, responder);
    match stage1 {
        Err(PairingError::Stalled) => {
            return Err(PairingError::Stalled);
        },
        Err(err) => {
            let failed = LmpPacket::NumericComparaisonFailed { transaction_id: 0 };
            let ghost failed_snapshot = failed;
            let ghost outputs_before = ctx.outputs@;
            ctx.send_lmp_packet(failed);
            proof {
                lemma_trace_view_push(outputs_before, Output::Lmp(failed_snapshot));
            }
            let complete = HciEvent::SimplePairingComplete {
                status: ErrorCode::AuthenticationFailure,
                bd_addr,
            };
            let ghost complete_snapshot = complete;
            let ghost outputs_before = ctx.outputs@;
            ctx.send_hci_event(complete);
            proof {
                lemma_trace_view_push(outputs_before, Output::Hci(complete_snapshot));
            }
            return Err(err);
        },
        Ok(_) => {},
    }

    // Authentication Stage 2.
    if let Err(e) = initiator_stage2(ctx) {
        return Err(e);
    }

    // Challenge/response and link-key notification.
    let key_type = crate::key::link_key_type(auth_method, &peer_key);
    initiator_challenge(ctx, key_type)
}

/// Decodes the three wire capability bytes, if all are in range.
fn decode_params(fields: IoCapabilityFields) -> (r: Option<AuthenticationParams>)
    ensures
        r == spec_params_of(fields),
{
    let io_capability = match IoCapability::from_u8(fields.io_capabilities) {
        None => {
            return None;
        },
        Some(v) => v,
    };
    let oob_data_present = match OobDataPresent::from_u8(fields.oob_authentication_data) {
        None => {
            return None;
        },
        Some(v) => v,
    };
    let authentication_requirements = match AuthenticationRequirements::from_u8(
        fields.authentication_requirement,
    ) {
        None => {
            return None;
        },
        Some(v) => v,
    };
    Some(AuthenticationParams { io_capability, oob_data_present, authentication_requirements })
}

fn initiator_stage1(
    ctx: &mut Context,
    initiator: AuthenticationParams,
    responder: AuthenticationParams,
) -> (r: Result<(), PairingError>)
    ensures
        same_env(old(ctx), final(ctx)),
        ({
            let s = spec_initiator_stage1(
                old(ctx).inputs@,
                old(ctx).bd_addr,
                io_of(old(ctx)),
                initiator,
                responder,
            );
            io_of(final(ctx)) == s.0 && r == s.1
        }),
{
    let bd_addr = ctx.peer_address();
    match authentication_method(initiator, responder) {
        AuthenticationMethod::NumericComparaisonJustWork
        | AuthenticationMethod::NumericComparaisonUserConfirm => {
            if let Err(e) = send_commitment(ctx, true) {
                return Err(e);
            }
            user_confirmation_request(ctx)
        },
        AuthenticationMethod::PasskeyEntry => {
            let keyboard = match initiator.io_capability {
                IoCapability::KeyboardOnly => true,
                _ => false,
            };
            if keyboard {
                if let Err(e) = user_passkey_request(ctx) {
                    return Err(e);
                }
            } else {
                let notification = HciEvent::UserPasskeyNotification { bd_addr, passkey: 0 };
                let ghost notification_snapshot = notification;
                let ghost outputs_before = ctx.outputs@;
                ctx.send_hci_event(notification);
                proof {
                    lemma_trace_view_push(outputs_before, Output::Hci(notification_snapshot));
                }
            }
            send_commitment_rounds(ctx, PASSKEY_ENTRY_REPEAT_NUMBER)
        },
        AuthenticationMethod::OutOfBand => {
            let oob_present = match initiator.oob_data_present {
                OobDataPresent::NotPresent => false,
                _ => true,
            };
            if oob_present {
                if let Err(e) = remote_oob_data_request(ctx) {
                    return Err(e);
                }
            }
            send_commitment(ctx, false)
        },
    }
}

fn initiator_stage2(ctx: &mut Context) -> (r: Result<(), PairingError>)
    ensures
        same_env(old(ctx), final(ctx)),
        ({
            let s = spec_initiator_stage2(old(ctx).inputs@, old(ctx).bd_addr, io_of(old(ctx)));
            io_of(final(ctx)) == s.0 && r == s.1
        }),
{
    let bd_addr = ctx.peer_address();
    let confirmation_value = zero_bytes(CONFIRMATION_VALUE_SIZE);
    let check = LmpPacket::DhkeyCheck { transaction_id: 0, confirmation_value };
    let ghost check_snapshot = check;
    let ghost outputs_before = ctx.outputs@;
    let res = ctx.send_accepted_lmp_packet(check);
    proof {
        lemma_trace_view_push(outputs_before, Output::Lmp(check_snapshot));
    }
    match res {
        SendResult::Stalled => Err(PairingError::Stalled),
        SendResult::NotAccepted => {
            let complete = HciEvent::SimplePairingComplete {
                status: ErrorCode::AuthenticationFailure,
                bd_addr,
            };
            let ghost complete_snapshot = complete;
            let ghost outputs_before = ctx.outputs@;
            ctx.send_hci_event(complete);
            proof {
                lemma_trace_view_push(outputs_before, Output::Hci(complete_snapshot));
            }
            Err(PairingError::Stage2Rejected)
        },
        SendResult::Accepted => {
            if !ctx.receive_dhkey_check() {
                return Err(PairingError::Stalled);
            }
            let accepted = LmpPacket::Accepted {
                transaction_id: 0,
                accepted_opcode: Opcode::DhkeyCheck,
            };
            let ghost accepted_snapshot = accepted;
            let ghost outputs_before = ctx.outputs@;
            ctx.send_lmp_packet(accepted);
            proof {
                lemma_trace_view_push(outputs_before, Output::Lmp(accepted_snapshot));
            }
            let complete = HciEvent::SimplePairingComplete {
                status: ErrorCode::Success,
                bd_addr,
            };
            let ghost complete_snapshot = complete;
            let ghost outputs_before = ctx.outputs@;
            ctx.send_hci_event(complete);
            proof {
                lemma_trace_view_push(outputs_before, Output::Hci(complete_snapshot));
            }
            Ok(())
        },
    }
}

fn initiator_challenge(ctx: &mut Context, key_type: KeyType) -> (r: Result<(), PairingError>)
    ensures
        same_env(old(ctx), final(ctx)),
        ({
            let s = spec_initiator_challenge(
                old(ctx).inputs@,
                old(ctx).bd_addr,
                io_of(old(ctx)),
                key_type,
            );
            io_of(final(ctx)) == s.0 && r == s.1
        }),
{
    let bd_addr = ctx.peer_address();
    let link_key = zero_bytes(16);
    let ghost link_key_snapshot = link_key;
    let ghost outputs_before = ctx.outputs@;
    let passed = ctx.send_challenge(0, link_key);
    proof {
        lemma_trace_view_push(
            outputs_before,
            (Output::SendChallenge { transaction_id: 0, link_key: link_key_snapshot }),
        );
    }
    let passed = match passed {
        None => {
            return Err(PairingError::Stalled);
        },
        Some(passed) => passed,
    };
    let link_key = zero_bytes(16);
    let ghost link_key_snapshot = link_key;
    let ghost outputs_before = ctx.outputs@;
    ctx.receive_challenge(link_key);
    proof {
        lemma_trace_view_push(
            outputs_before,
            (Output::ReceiveChallenge { link_key: link_key_snapshot }),
        );
    }
    if !passed {
        return Err(PairingError::AuthenticationFailed);
    }
    let link_key = zero_bytes(16);
    let notification = HciEvent::LinkKeyNotification { bd_addr, link_key, key_type };
    let ghost notification_snapshot = notification;
    let ghost outputs_before = ctx.outputs@;
    ctx.send_hci_event(notification);
    proof {
        lemma_trace_view_push(outputs_before, Output::Hci(notification_snapshot));
    }
    Ok(())
}

/// Effect of decoding the inbound LMP IO Capability Request that entered
/// the responder run, and reporting it to the host.
pub open spec fn spec_responder_peer_capability(
    bd_addr: u64,
    io: Io,
    request: IoCapabilityFields,
) -> (Io, Result<AuthenticationParams, PairingError>) {
    match spec_params_of(request) {
        None => (io, Err(PairingError::InvalidPeerParameters)),
        Some(params) => (
            Io {
                cursor: io.cursor,
                sent: io.sent.push(
                    OutputView::Hci(
                        HciEventView::IoCapabilityResponse {
                            bd_addr,
                            io_capability: params.io_capability,
                            oob_data_present: params.oob_data_present,
                            authentication_requirements: params.authentication_requirements,
                        },
                    ),
                ),
            },
            Ok(params),
        ),
    }
}

/// Effect of the responder's local capability exchange: ask the host, and
/// mirror its reply to the peer as an LMP IO Capability Response.
pub open spec fn spec_responder_local_capability(inputs: Seq<Input>, bd_addr: u64, io: Io) -> (
    Io,
    Option<AuthenticationParams>,
) {
    let io0 = Io {
        cursor: io.cursor,
        sent: io.sent.push(OutputView::Hci(HciEventView::IoCapabilityRequest { bd_addr })),
    };
    match spec_recv_iocap_reply(inputs, io0.cursor) {
        None => (io0, None),
        Some(params) => (
            Io {
                cursor: io0.cursor + 1,
                sent: io0.sent.push(
                    OutputView::Hci(
                        HciEventView::IoCapabilityRequestReplyComplete {
                            num_hci_command_packets: NUM_HCI_COMMAND_PACKETS,
                            status: ErrorCode::Success,
                            bd_addr,
                        },
                    ),
                ).push(
                    OutputView::Lmp(
                        LmpPacketView::IoCapabilityRes {
                            transaction_id: 0,
                            fields: spec_fields_of(params),
                        },
                    ),
                ),
            },
            Some(params),
        ),
    }
}

/// Effect of the responder's Stage-1 dispatch: the negative verdict of a
/// numeric-comparison user confirmation is remembered rather than acted on;
/// a passkey or out-of-band rejection by the host is swallowed, the
/// initiator deciding instead at the Stage-2 gate.
pub open spec fn spec_responder_stage1(
    inputs: Seq<Input>,
    bd_addr: u64,
    io: Io,
    initiator: AuthenticationParams,
    responder: AuthenticationParams,
) -> (Io, Result<bool, PairingError>) {
    match spec_authentication_method(initiator, responder) {
        AuthenticationMethod::NumericComparaisonJustWork
        | AuthenticationMethod::NumericComparaisonUserConfirm => {
            let s = spec_receive_commitment(inputs, io, true);
            match s.1 {
                Err(e) => (s.0, Err(e)),
                Ok(_) => {
                    let u = spec_user_confirmation_request(inputs, bd_addr, s.0);
                    match u.1 {
                        Err(PairingError::Stalled) => (u.0, Err(PairingError::Stalled)),
                        Err(_) => (u.0, Ok(true)),
                        Ok(_) => (u.0, Ok(false)),
                    }
                },
            }
        },
        AuthenticationMethod::PasskeyEntry => {
            let first = if responder.io_capability is KeyboardOnly {
                spec_user_passkey_request(inputs, bd_addr, io)
            } else {
                (
                    Io {
                        cursor: io.cursor,
                        sent: io.sent.push(
                            OutputView::Hci(
                                HciEventView::UserPasskeyNotification { bd_addr, passkey: 0 },
                            ),
                        ),
                    },
                    Ok(()),
                )
            };
            match first.1 {
                Err(PairingError::Stalled) => (first.0, Err(PairingError::Stalled)),
                _ => {
                    let rr = spec_receive_commitment_rounds(
                        inputs,
                        first.0,
                        PASSKEY_ENTRY_REPEAT_NUMBER as nat,
                    );
                    match rr.1 {
                        Err(e) => (rr.0, Err(e)),
                        Ok(_) => (rr.0, Ok(false)),
                    }
                },
            }
        },
        AuthenticationMethod::OutOfBand => {
            let first = if !(responder.oob_data_present is NotPresent) {
                spec_remote_oob_data_request(inputs, bd_addr, io)
            } else {
                (io, Ok(()))
            };
            match first.1 {
                Err(PairingError::Stalled) => (first.0, Err(PairingError::Stalled)),
                _ => {
                    let rc = spec_receive_commitment(inputs, first.0, false);
                    match rc.1 {
                        Err(e) => (rc.0, Err(e)),
                        Ok(_) => (rc.0, Ok(false)),
                    }
                },
            }
        },
    }
}

/// Effect of the responder's Stage-2 gate and DH-key exchange: a peer abort
/// or a remembered negative confirmation fails the pairing; otherwise the
/// peer's check is accepted and the local check goes out awaiting its
/// Accepted.
pub open spec fn spec_responder_stage2(
    inputs: Seq<Input>,
    bd_addr: u64,
    io: Io,
    negative_user_confirmation: bool,
) -> (Io, Result<(), PairingError>) {
    match spec_recv_stage2_gate(inputs, io.cursor) {
        None => (io, Err(PairingError::Stalled)),
        Some(Stage2Gate::PeerFailed) => (
            Io {
                cursor: io.cursor + 1,
                sent: io.sent.push(
                    view_pairing_complete(ErrorCode::AuthenticationFailure, bd_addr),
                ),
            },
            Err(PairingError::PeerAborted),
        ),
        Some(Stage2Gate::DhkeyCheck) => {
            let io1 = Io { cursor: io.cursor + 1, sent: io.sent };
            if negative_user_confirmation {
                (
                    Io {
                        cursor: io1.cursor,
                        sent: io1.sent.push(
                            OutputView::Lmp(
                                LmpPacketView::NotAccepted {
                                    transaction_id: 0,
                                    not_accepted_opcode: Opcode::DhkeyCheck,
                                    error_code: ErrorCode::AuthenticationFailure.spec_to_u8(),
                                },
                            ),
                        ).push(
                            view_pairing_complete(ErrorCode::AuthenticationFailure, bd_addr),
                        ),
                    },
                    Err(PairingError::UserRejected),
                )
            } else {
                let io2 = Io {
                    cursor: io1.cursor,
                    sent: io1.sent.push(view_accepted(0, Opcode::DhkeyCheck)),
                };
                let sent3 = io2.sent.push(view_dhkey_check());
                match spec_send_accepted(inputs, io2.cursor, Opcode::DhkeyCheck) {
                    SendResult::Stalled => (
                        Io { cursor: io2.cursor, sent: sent3 },
                        Err(PairingError::Stalled),
                    ),
                    _ => (
                        Io {
                            cursor: io2.cursor + 1,
                            sent: sent3.push(view_pairing_complete(ErrorCode::Success, bd_addr)),
                        },
                        Ok(()),
                    ),
                }
            }
        },
    }
}

/// Effect of the responder's challenge/response step and link-key
/// notification: the peer's challenge is taken first, then the local one
/// goes out, inverting the initiator's order.
pub open spec fn spec_responder_challenge(
    inputs: Seq<Input>,
    bd_addr: u64,
    io: Io,
    key_type: KeyType,
) -> (Io, Result<(), PairingError>) {
    let sent0 = io.sent.push((OutputView::ReceiveChallenge { link_key: zeros(16) })).push(
        (OutputView::SendChallenge { transaction_id: 0, link_key: zeros(16) }),
    );
    match spec_challenge_result(inputs, io.cursor) {
        None => (Io { cursor: io.cursor, sent: sent0 }, Err(PairingError::Stalled)),
        Some(passed) => {
            let io1 = Io { cursor: io.cursor + 1, sent: sent0 };
            if !passed {
                (io1, Err(PairingError::AuthenticationFailed))
            } else {
                (
                    Io {
                        cursor: io1.cursor,
                        sent: io1.sent.push(view_link_key_notification(bd_addr, key_type)),
                    },
                    Ok(()),
                )
            }
        },
    }
}

/// Effect of a whole responder run over a script, entered with the decoded
/// fields of the peer's IO Capability Request.
pub open spec fn spec_respond(
    inputs: Seq<Input>,
    bd_addr: u64,
    request: IoCapabilityFields,
    io: Io,
) -> (Io, Result<(), PairingError>) {
    let a = spec_responder_peer_capability(bd_addr, io, request);
    match a.1 {
        Err(e) => (a.0, Err(e)),
        Ok(initiator) => {
            let b = spec_responder_local_capability(inputs, bd_addr, a.0);
            match b.1 {
                None => (b.0, Err(PairingError::Stalled)),
                Some(responder) => {
                    let c = spec_receive_public_key(inputs, b.0, 0);
                    match c.1 {
                        Err(e) => (c.0, Err(e)),
                        Ok(peer_key) => {
                            let d = spec_send_public_key(inputs, c.0, 0, zeros(peer_key.len()));
                            if !d.1 {
                                (d.0, Err(PairingError::Stalled))
                            } else {
                                let e = spec_responder_stage1(
                                    inputs,
                                    bd_addr,
                                    d.0,
                                    initiator,
                                    responder,
                                );
                                match e.1 {
                                    Err(PairingError::Stalled) => (
                                        e.0,
                                        Err(PairingError::Stalled),
                                    ),
                                    Err(err) => (
                                        Io {
                                            cursor: e.0.cursor,
                                            sent: e.0.sent.push(
                                                view_pairing_complete(
                                                    ErrorCode::AuthenticationFailure,
                                                    bd_addr,
                                                ),
                                            ),
                                        },
                                        Err(err),
                                    ),
                                    Ok(negative_user_confirmation) => {
                                        let f = spec_responder_stage2(
                                            inputs,
                                            bd_addr,
                                            e.0,
                                            negative_user_confirmation,
                                        );
                                        match f.1 {
                                            Err(err) => (f.0, Err(err)),
                                            Ok(_) => spec_responder_challenge(
                                                inputs,
                                                bd_addr,
                                                f.0,
                                                spec_key_type_for(
                                                    spec_authentication_method(
                                                        initiator,
                                                        responder,
                                                    ),
                                                    peer_key.len(),
                                                ),
                                            ),
                                        }
                                    },
                                }
                            }
                        },
                    }
                },
            }
        },
    }
}

/// Drives one pairing as the responder, entered on receipt of the peer's
/// LMP IO Capability Request. The whole emitted trace and the outcome are
/// fixed by the script.
pub fn respond(ctx: &mut Context, request: IoCapabilityFields) -> (r: Result<(), PairingError>)
    ensures
        same_env(old(ctx), final(ctx)),
        ({
            let s = spec_respond(old(ctx).inputs@, old(ctx).bd_addr, request, io_of(old(ctx)));
            io_of(final(ctx)) == s.0 && r == s.1
        }),
{
    let bd_addr = ctx.peer_address();

    // Capability exchange, peer side: decode the request that entered us.
    let initiator = match decode_params(request) {
        None => {
            return Err(PairingError::InvalidPeerParameters);
        },
        Some(params) => params,
    };
    let response = HciEvent::IoCapabilityResponse {
        bd_addr,
        io_capability: initiator.io_capability,
        oob_data_present: initiator.oob_data_present,
        authentication_requirements: initiator.authentication_requirements,
    };
    let ghost response_snapshot = response;
    let ghost outputs_before = ctx.outputs@;
    ctx.send_hci_event(response);
    proof {
        lemma_trace_view_push(outputs_before, Output::Hci(response_snapshot));
    }

    // Capability exchange, local side.
    let hci_request = HciEvent::IoCapabilityRequest { bd_addr };
    let ghost hci_request_snapshot = hci_request;
    let ghost outputs_before = ctx.outputs@;
    ctx.send_hci_event(hci_request);
    proof {
        lemma_trace_view_push(outputs_before, Output::Hci(hci_request_snapshot));
    }
    let responder = match ctx.receive_io_capability_request_reply() {
        None => {
            return Err(PairingError::Stalled);
        },
        Some(params) => params,
    };
    let complete = HciEvent::IoCapabilityRequestReplyComplete {
        num_hci_command_packets: NUM_HCI_COMMAND_PACKETS,
        status: ErrorCode::Success,
        bd_addr,
    };
    let ghost complete_snapshot = complete;
    let ghost outputs_before = ctx.outputs@;
    ctx.send_hci_event(complete);
    proof {
        lemma_trace_view_push(outputs_before, Output::Hci(complete_snapshot));
    }
    let mirror = LmpPacket::IoCapabilityRes {
        transaction_id: 0,
        fields: IoCapabilityFields {
            io_capabilities: responder.io_capability.to_u8(),
            oob_authentication_data: responder.oob_data_present.to_u8(),
            authentication_requirement: responder.authentication_requirements.to_u8(),
        },
    };
    let ghost mirror_snapshot = mirror;
    let ghost outputs_before = ctx.outputs@;
    ctx.send_lmp_packet(mirror);
    proof {
        lemma_trace_view_push(outputs_before, Output::Lmp(mirror_snapshot));
    }

    // Public-key exchange: the peer's key first, then a local key of the
    // same size.
    let peer_key = match receive_public_key(ctx, 0) {
        Err(e) => {
            return Err(e);
        },
        Ok(key) => key,
    };
    let local_key = match PublicKey::generate(peer_key.get_size()) {
        None => {
            return Err(PairingError::InvalidKeySize);
        },
        Some(key) => key,
    };
    if let Err(e) = send_public_key(ctx, 0, &local_key) {
        return Err(e);
    }

    // Authentication Stage 1.
    let auth_method = authentication_method(initiator, responder);
    let negative_user_confirmation = match responder_stage1(ctx, initiator, responder) {
        Err(PairingError::Stalled) => {
            return Err(PairingError::Stalled);
        },
        Err(err) => {
            let complete = HciEvent::SimplePairingComplete {
                status: ErrorCode::AuthenticationFailure,
                bd_addr,
            };
            let ghost complete_snapshot = complete;
            let ghost outputs_before = ctx.outputs@;
            ctx.send_hci_event(complete);
            proof {
                lemma_trace_view_push(outputs_before, Output::Hci(complete_snapshot));
            }
            return Err(err);
        },
        Ok(negative) => negative,
    };

    // Stage-2 gate and DH-key exchange.
    if let Err(e) = responder_stage2(ctx, negative_user_confirmation) {
        return Err(e);
    }

    // Challenge/response and link-key notification.
    let key_type = crate::key::link_key_type(auth_method, &peer_key);
    responder_challenge(ctx, key_type)
}

fn responder_stage1(
    ctx: &mut Context,
    initiator: AuthenticationParams,
    responder: AuthenticationParams,
) -> (r: Result<bool, PairingError>)
    ensures
        same_env(old(ctx), final(ctx)),
        ({
            let s = spec_responder_stage1(
                old(ctx).inputs@,
                old(ctx).bd_addr,
                io_of(old(ctx)),
                initiator,
                responder,
            );
            io_of(final(ctx)) == s.0 && r == s.1
        }),
{
    let bd_addr = ctx.peer_address();
    match authentication_method(initiator, responder) {
        AuthenticationMethod::NumericComparaisonJustWork
        | AuthenticationMethod::NumericComparaisonUserConfirm => {
            if let Err(e) = receive_commitment(ctx, true) {
                return Err(e);
            }
            match user_confirmation_request(ctx) {
                Err(PairingError::Stalled) => Err(PairingError::Stalled),
                Err(_) => Ok(true),
                Ok(_) => Ok(false),
            }
        },
        AuthenticationMethod::PasskeyEntry => {
            let keyboard = match responder.io_capability {
                IoCapability::KeyboardOnly => true,
                _ => false,
            };
            if keyboard {
                match user_passkey_request(ctx) {
                    Err(PairingError::Stalled) => {
                        return Err(PairingError::Stalled);
                    },
                    _ => {},
                }
            } else {
                let notification = HciEvent::UserPasskeyNotification { bd_addr, passkey: 0 };
                let ghost notification_snapshot = notification;
                let ghost outputs_before = ctx.outputs@;
                ctx.send_hci_event(notification);
                proof {
                    lemma_trace_view_push(outputs_before, Output::Hci(notification_snapshot));
                }
            }
            match receive_commitment_rounds(ctx, PASSKEY_ENTRY_REPEAT_NUMBER) {
                Err(e) => Err(e),
                Ok(_) => Ok(false),
            }
        },
        AuthenticationMethod::OutOfBand => {
            let oob_present = match responder.oob_data_present {
                OobDataPresent::NotPresent => false,
                _ => true,
            };
            if oob_present {
                match remote_oob_data_request(ctx) {
                    Err(PairingError::Stalled) => {
                        return Err(PairingError::Stalled);
                    },
                    _ => {},
                }
            }
            match receive_commitment(ctx, false) {
                Err(e) => Err(e),
                Ok(_) => Ok(false),
            }
        },
    }
}

fn responder_stage2(ctx: &mut Context, negative_user_confirmation: bool) -> (r: Result<
    (),
    PairingError,
>)
    ensures
        same_env(old(ctx), final(ctx)),
        ({
            let s = spec_responder_stage2(
                old(ctx).inputs@,
                old(ctx).bd_addr,
                io_of(old(ctx)),
                negative_user_confirmation,
            );
            io_of(final(ctx)) == s.0 && r == s.1
        }),
{
    let bd_addr = ctx.peer_address();
    match ctx.receive_stage2_gate() {
        None => Err(PairingError::Stalled),
        Some(Stage2Gate::PeerFailed) => {
            let complete = HciEvent::SimplePairingComplete {
                status: ErrorCode::AuthenticationFailure,
                bd_addr,
            };
            let ghost complete_snapshot = complete;
            let ghost outputs_before = ctx.outputs@;
            ctx.send_hci_event(complete);
            proof {
                lemma_trace_view_push(outputs_before, Output::Hci(complete_snapshot));
            }
            Err(PairingError::PeerAborted)
        },
        Some(Stage2Gate::DhkeyCheck) => {
            if negative_user_confirmation {
                let refusal = LmpPacket::NotAccepted {
                    transaction_id: 0,
                    not_accepted_opcode: Opcode::DhkeyCheck,
                    error_code: ErrorCode::AuthenticationFailure.to_u8(),
                };
                let ghost refusal_snapshot = refusal;
                let ghost outputs_before = ctx.outputs@;
                ctx.send_lmp_packet(refusal);
                proof {
                    lemma_trace_view_push(outputs_before, Output::Lmp(refusal_snapshot));
                }
                let complete = HciEvent::SimplePairingComplete {
                    status: ErrorCode::AuthenticationFailure,
                    bd_addr,
                };
                let ghost complete_snapshot = complete;
                let ghost outputs_before = ctx.outputs@;
                ctx.send_hci_event(complete);
                proof {
                    lemma_trace_view_push(outputs_before, Output::Hci(complete_snapshot));
                }
                return Err(PairingError::UserRejected);
            }
            let accepted = LmpPacket::Accepted {
                transaction_id: 0,
                accepted_opcode: Opcode::DhkeyCheck,
            };
            let ghost accepted_snapshot = accepted;
            let ghost outputs_before = ctx.outputs@;
            ctx.send_lmp_packet(accepted);
            proof {
                lemma_trace_view_push(outputs_before, Output::Lmp(accepted_snapshot));
            }
            let confirmation_value = zero_bytes(CONFIRMATION_VALUE_SIZE);
            let check = LmpPacket::DhkeyCheck { transaction_id: 0, confirmation_value };
            let ghost check_snapshot = check;
            let ghost outputs_before = ctx.outputs@;
            let res = ctx.send_accepted_lmp_packet(check);
            proof {
                lemma_trace_view_push(outputs_before, Output::Lmp(check_snapshot));
            }
            if let SendResult::Stalled = res {
                return Err(PairingError::Stalled);
            }
            let complete = HciEvent::SimplePairingComplete {
                status: ErrorCode::Success,
                bd_addr,
            };
            let ghost complete_snapshot = complete;
            let ghost outputs_before = ctx.outputs@;
            ctx.send_hci_event(complete);
            proof {
                lemma_trace_view_push(outputs_before, Output::Hci(complete_snapshot));
            }
            Ok(())
        },
    }
}

fn responder_challenge(ctx: &mut Context, key_type: KeyType) -> (r: Result<(), PairingError>)
    ensures
        same_env(old(ctx), final(ctx)),
        ({
            let s = spec_responder_challenge(
                old(ctx).inputs@,
                old(ctx).bd_addr,
                io_of(old(ctx)),
                key_type,
            );
            io_of(final(ctx)) == s.0 && r == s.1
        }),
{
    let bd_addr = ctx.peer_address();
    let link_key = zero_bytes(16);
    let ghost link_key_snapshot = link_key;
    let ghost outputs_before = ctx.outputs@;
    ctx.receive_challenge(link_key);
    proof {
        lemma_trace_view_push(
            outputs_before,
            (Output::ReceiveChallenge { link_key: link_key_snapshot }),
        );
    }
    let link_key = zero_bytes(16);
    let ghost link_key_snapshot = link_key;
    let ghost outputs_before = ctx.outputs@;
    let passed = ctx.send_challenge(0, link_key);
    proof {
        lemma_trace_view_push(
            outputs_before,
            (Output::SendChallenge { transaction_id: 0, link_key: link_key_snapshot }),
        );
    }
    let passed = match passed {
        None => {
            return Err(PairingError::Stalled);
        },
        Some(passed) => passed,
    };
    if !passed {
        return Err(PairingError::AuthenticationFailed);
    }
    let link_key = zero_bytes(16);
    let notification = HciEvent::LinkKeyNotification { bd_addr, link_key, key_type };
    let ghost notification_snapshot = notification;
    let ghost outputs_before = ctx.outputs@;
    ctx.send_hci_event(notification);
    proof {
        lemma_trace_view_push(outputs_before, Output::Hci(notification_snapshot));
    }
    Ok(())
}

} // verus!
