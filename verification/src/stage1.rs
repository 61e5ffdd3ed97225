//! Stage-1 sub-protocols: the commitment/nonce rounds exchanged with the
//! peer, and the three HCI user-interaction round-trips.
//!
//! Commitments, nonces and passkeys are stubbed as zeroes in this core; the
//! frame sequencing is what matters and is pinned exactly. A received
//! confirm that disagrees with the expected commitment ends the round with
//! a commitment-mismatch error, which the coordinator routes through the
//! authentication-failure path.

use vstd::prelude::*;
use crate::bytes::{bytes_equal, zero_bytes, zeros};
use crate::context::{
    Context, Io, PasskeyCommand, SendResult, io_of, same_env, spec_recv_pairing_confirm,
    spec_recv_pairing_number, spec_recv_remote_oob, spec_recv_user_confirmation,
    spec_recv_user_passkey, spec_send_accepted,
};
use crate::packets::{
    HciEvent, HciEventView, Input, LmpPacket, LmpPacketView, NUM_HCI_COMMAND_PACKETS, Opcode,
    Output, OutputView, lemma_trace_view_push, view_accepted,
};
use crate::types::{ErrorCode, PairingError};

verus! {

/// Size of a commitment value.
pub const COMMITMENT_VALUE_SIZE: usize = 16;

/// Size of a nonce.
pub const NONCE_SIZE: usize = 16;

/// The view of an outbound Simple Pairing Confirm carrying the local
/// (zero-stubbed) commitment.
pub open spec fn view_pairing_confirm(transaction_id: u8) -> OutputView {
    OutputView::Lmp(
        LmpPacketView::SimplePairingConfirm { transaction_id, commitment_value: zeros(16) },
    )
}

/// The view of an outbound Simple Pairing Number carrying the local
/// (zero-stubbed) nonce.
pub open spec fn view_pairing_number(transaction_id: u8) -> OutputView {
    OutputView::Lmp(LmpPacketView::SimplePairingNumber { transaction_id, nonce: zeros(16) })
}

/// Tail of an initiator-side commitment round, after any opening confirm
/// exchange: the local nonce goes out awaiting its Accepted, then the
/// peer's nonce is received and answered with an Accepted.
pub open spec fn spec_send_commitment_nonces(inputs: Seq<Input>, io: Io) -> (
    Io,
    Result<(), PairingError>,
) {
    let sent1 = io.sent.push(view_pairing_number(0));
    if spec_send_accepted(inputs, io.cursor, Opcode::SimplePairingNumber) is Stalled {
        (Io { cursor: io.cursor, sent: sent1 }, Err(PairingError::Stalled))
    } else {
        let io1 = Io { cursor: io.cursor + 1, sent: sent1 };
        match spec_recv_pairing_number(inputs, io1.cursor) {
            None => (io1, Err(PairingError::Stalled)),
            Some(_) => (
                Io {
                    cursor: io1.cursor + 1,
                    sent: io1.sent.push(view_accepted(0, Opcode::SimplePairingNumber)),
                },
                Ok(()),
            ),
        }
    }
}

/// Effect of one initiator-side commitment round. Unless `skip_first`, the
/// local confirm opens the round; the peer's confirm must then match the
/// local commitment; nonces are then exchanged.
pub open spec fn spec_send_commitment(inputs: Seq<Input>, io: Io, skip_first: bool) -> (
    Io,
    Result<(), PairingError>,
) {
    let io0 = if skip_first {
        io
    } else {
        Io { cursor: io.cursor, sent: io.sent.push(view_pairing_confirm(0)) }
    };
    match spec_recv_pairing_confirm(inputs, io0.cursor) {
        None => (io0, Err(PairingError::Stalled)),
        Some(commitment) => {
            let io1 = Io { cursor: io0.cursor + 1, sent: io0.sent };
            if commitment != zeros(16) {
                (io1, Err(PairingError::CommitmentMismatch))
            } else {
                spec_send_commitment_nonces(inputs, io1)
            }
        },
    }
}

/// Tail of a responder-side commitment round: the local confirm goes out,
/// the peer's nonce is received and answered with an Accepted, then the
/// local nonce goes out awaiting its Accepted.
pub open spec fn spec_receive_commitment_rest(inputs: Seq<Input>, io: Io) -> (
    Io,
    Result<(), PairingError>,
) {
    let io1 = Io { cursor: io.cursor, sent: io.sent.push(view_pairing_confirm(0)) };
    match spec_recv_pairing_number(inputs, io1.cursor) {
        None => (io1, Err(PairingError::Stalled)),
        Some(_) => {
            let io2 = Io {
                cursor: io1.cursor + 1,
                sent: io1.sent.push(view_accepted(0, Opcode::SimplePairingNumber)),
            };
            let sent3 = io2.sent.push(view_pairing_number(0));
            if spec_send_accepted(inputs, io2.cursor, Opcode::SimplePairingNumber) is Stalled {
                (Io { cursor: io2.cursor, sent: sent3 }, Err(PairingError::Stalled))
            } else {
                (Io { cursor: io2.cursor + 1, sent: sent3 }, Ok(()))
            }
        },
    }
}

/// Effect of one responder-side commitment round: the mirror image of the
/// initiator's round, receiving the peer's confirm first unless
/// `skip_first`.
pub open spec fn spec_receive_commitment(inputs: Seq<Input>, io: Io, skip_first: bool) -> (
    Io,
    Result<(), PairingError>,
) {
    if skip_first {
        spec_receive_commitment_rest(inputs, io)
    } else {
        match spec_recv_pairing_confirm(inputs, io.cursor) {
            None => (io, Err(PairingError::Stalled)),
            Some(commitment) => {
                let io1 = Io { cursor: io.cursor + 1, sent: io.sent };
                if commitment != zeros(16) {
                    (io1, Err(PairingError::CommitmentMismatch))
                } else {
                    spec_receive_commitment_rest(inputs, io1)
                }
            },
        }
    }
}

/// Initiator side of one commitment round; see `spec_send_commitment`.
pub fn send_commitment(ctx: &mut Context, skip_first: bool) -> (r: Result<(), PairingError>)
    ensures
        same_env(old(ctx), final(ctx)),
        ({
            let s = spec_send_commitment(old(ctx).inputs@, io_of(old(ctx)), skip_first);
            io_of(final(ctx)) == s.0 && r == s.1
        }),
{
    if !skip_first {
        let commitment_value = zero_bytes(COMMITMENT_VALUE_SIZE);
        let packet = LmpPacket::SimplePairingConfirm { transaction_id: 0, commitment_value };
        let ghost packet_snapshot = packet;
        let ghost outputs_before = ctx.outputs@;
        ctx.send_lmp_packet(packet);
        proof {
            lemma_trace_view_push(outputs_before, Output::Lmp(packet_snapshot));
        }
    }
    let commitment = match ctx.receive_simple_pairing_confirm() {
        None => {
            return Err(PairingError::Stalled);
        },
        Some(commitment) => commitment,
    };
    let expected = zero_bytes(COMMITMENT_VALUE_SIZE);
    if !bytes_equal(&commitment, &expected) {
        return Err(PairingError::CommitmentMismatch);
    }
    let nonce = zero_bytes(NONCE_SIZE);
    let packet = LmpPacket::SimplePairingNumber { transaction_id: 0, nonce };
    let ghost packet_snapshot = packet;
    let ghost outputs_before = ctx.outputs@;
    let res = ctx.send_accepted_lmp_packet(packet);
    proof {
        lemma_trace_view_push(outputs_before, Output::Lmp(packet_snapshot));
    }
    if let SendResult::Stalled = res {
        return Err(PairingError::Stalled);
    }
    if !ctx.receive_simple_pairing_number().is_some() {
        return Err(PairingError::Stalled);
    }
    let accepted = LmpPacket::Accepted {
        transaction_id: 0,
        accepted_opcode: Opcode::SimplePairingNumber,
    };
    let ghost accepted_snapshot = accepted;
    let ghost outputs_before = ctx.outputs@;
    ctx.send_lmp_packet(accepted);
    proof {
        lemma_trace_view_push(outputs_before, Output::Lmp(accepted_snapshot));
    }
    Ok(())
}

/// Responder side of one commitment round; see `spec_receive_commitment`.
pub fn receive_commitment(ctx: &mut Context, skip_first: bool) -> (r: Result<(), PairingError>)
    ensures
        same_env(old(ctx), final(ctx)),
        ({
            let s = spec_receive_commitment(old(ctx).inputs@, io_of(old(ctx)), skip_first);
            io_of(final(ctx)) == s.0 && r == s.1
        }),
{
    if !skip_first {
        let commitment = match ctx.receive_simple_pairing_confirm() {
            None => {
                return Err(PairingError::Stalled);
            },
            Some(commitment) => commitment,
        };
        let expected = zero_bytes(COMMITMENT_VALUE_SIZE);
        if !bytes_equal(&commitment, &expected) {
            return Err(PairingError::CommitmentMismatch);
        }
    }
    let commitment_value = zero_bytes(COMMITMENT_VALUE_SIZE);
    let packet = LmpPacket::SimplePairingConfirm { transaction_id: 0, commitment_value };
    let ghost packet_snapshot = packet;
    let ghost outputs_before = ctx.outputs@;
    ctx.send_lmp_packet(packet);
    proof {
        lemma_trace_view_push(outputs_before, Output::Lmp(packet_snapshot));
    }
    if !ctx.receive_simple_pairing_number().is_some() {
        return Err(PairingError::Stalled);
    }
    let accepted = LmpPacket::Accepted {
        transaction_id: 0,
        accepted_opcode: Opcode::SimplePairingNumber,
    };
    let ghost accepted_snapshot = accepted;
    let ghost outputs_before = ctx.outputs@;
    ctx.send_lmp_packet(accepted);
    proof {
        lemma_trace_view_push(outputs_before, Output::Lmp(accepted_snapshot));
    }
    let nonce = zero_bytes(NONCE_SIZE);
    let packet = LmpPacket::SimplePairingNumber { transaction_id: 0, nonce };
    let ghost packet_snapshot = packet;
    let ghost outputs_before = ctx.outputs@;
    let res = ctx.send_accepted_lmp_packet(packet);
    proof {
        lemma_trace_view_push(outputs_before, Output::Lmp(packet_snapshot));
    }
    if let SendResult::Stalled = res {
        return Err(PairingError::Stalled);
    }
    Ok(())
}

/// Effect of `n` initiator-side commitment rounds, in order, none skipping
/// its opening confirm; the first failing round stops the sequence.
pub open spec fn spec_send_commitment_rounds(inputs: Seq<Input>, io: Io, n: nat) -> (
    Io,
    Result<(), PairingError>,
)
    decreases n,
{
    if n == 0 {
        (io, Ok(()))
    } else {
        let prev = spec_send_commitment_rounds(inputs, io, (n - 1) as nat);
        match prev.1 {
            Err(_) => prev,
            Ok(_) => spec_send_commitment(inputs, prev.0, false),
        }
    }
}

/// Effect of `n` responder-side commitment rounds, in order.
pub open spec fn spec_receive_commitment_rounds(inputs: Seq<Input>, io: Io, n: nat) -> (
    Io,
    Result<(), PairingError>,
)
    decreases n,
{
    if n == 0 {
        (io, Ok(()))
    } else {
        let prev = spec_receive_commitment_rounds(inputs, io, (n - 1) as nat);
        match prev.1 {
            Err(_) => prev,
            Ok(_) => spec_receive_commitment(inputs, prev.0, false),
        }
    }
}

/// Runs `n` initiator-side commitment rounds.
pub fn send_commitment_rounds(ctx: &mut Context, n: usize) -> (r: Result<(), PairingError>)
    ensures
        same_env(old(ctx), final(ctx)),
        ({
            let s = spec_send_commitment_rounds(old(ctx).inputs@, io_of(old(ctx)), n as nat);
            io_of(final(ctx)) == s.0 && r == s.1
        }),
    decreases n,
{
    if n == 0 {
        return Ok(());
    }
    let prev = send_commitment_rounds(ctx, n - 1);
    if prev.is_err() {
        return prev;
    }
    send_commitment(ctx, false)
}

/// Runs `n` responder-side commitment rounds.
pub fn receive_commitment_rounds(ctx: &mut Context, n: usize) -> (r: Result<(), PairingError>)
    ensures
        same_env(old(ctx), final(ctx)),
        ({
            let s = spec_receive_commitment_rounds(old(ctx).inputs@, io_of(old(ctx)), n as nat);
            io_of(final(ctx)) == s.0 && r == s.1
        }),
    decreases n,
{
    if n == 0 {
        return Ok(());
    }
    let prev = receive_commitment_rounds(ctx, n - 1);
    if prev.is_err() {
        return prev;
    }
    receive_commitment(ctx, false)
}

/// Effect of the User Confirmation round-trip: one request event, the
/// host's reply or negative reply, and the matching completion event.
pub open spec fn spec_user_confirmation_request(inputs: Seq<Input>, bd_addr: u64, io: Io) -> (
    Io,
    Result<(), PairingError>,
) {
    let io0 = Io {
        cursor: io.cursor,
        sent: io.sent.push(
            OutputView::Hci(
                HciEventView::UserConfirmationRequest { bd_addr, numeric_value: 0 },
            ),
        ),
    };
    match spec_recv_user_confirmation(inputs, io0.cursor) {
        None => (io0, Err(PairingError::Stalled)),
        Some(confirmed) => {
            let complete = if confirmed {
                HciEventView::UserConfirmationRequestReplyComplete {
                    num_hci_command_packets: NUM_HCI_COMMAND_PACKETS,
                    status: ErrorCode::Success,
                    bd_addr,
                }
            } else {
                HciEventView::UserConfirmationRequestNegativeReplyComplete {
                    num_hci_command_packets: NUM_HCI_COMMAND_PACKETS,
                    status: ErrorCode::Success,
                    bd_addr,
                }
            };
            (
                Io { cursor: io0.cursor + 1, sent: io0.sent.push(OutputView::Hci(complete)) },
                if confirmed {
                    Ok(())
                } else {
                    Err(PairingError::UserRejected)
                },
            )
        },
    }
}

/// Asks the host to confirm the numeric value and reports its decision.
pub fn user_confirmation_request(ctx: &mut Context) -> (r: Result<(), PairingError>)
    ensures
        same_env(old(ctx), final(ctx)),
        ({
            let s = spec_user_confirmation_request(
                old(ctx).inputs@,
                old(ctx).bd_addr,
                io_of(old(ctx)),
            );
            io_of(final(ctx)) == s.0 && r == s.1
        }),
{
    let bd_addr = ctx.peer_address();
    let request = HciEvent::UserConfirmationRequest { bd_addr, numeric_value: 0 };
    let ghost request_snapshot = request;
    let ghost outputs_before = ctx.outputs@;
    ctx.send_hci_event(request);
    proof {
        lemma_trace_view_push(outputs_before, Output::Hci(request_snapshot));
    }
    match ctx.receive_user_confirmation() {
        None => Err(PairingError::Stalled),
        Some(confirmed) => {
            let complete = if confirmed {
                HciEvent::UserConfirmationRequestReplyComplete {
                    num_hci_command_packets: NUM_HCI_COMMAND_PACKETS,
                    status: ErrorCode::Success,
                    bd_addr,
                }
            } else {
                HciEvent::UserConfirmationRequestNegativeReplyComplete {
                    num_hci_command_packets: NUM_HCI_COMMAND_PACKETS,
                    status: ErrorCode::Success,
                    bd_addr,
                }
            };
            let ghost complete_snapshot = complete;
            let ghost outputs_before = ctx.outputs@;
            ctx.send_hci_event(complete);
            proof {
                lemma_trace_view_push(outputs_before, Output::Hci(complete_snapshot));
            }
            if confirmed {
                Ok(())
            } else {
                Err(PairingError::UserRejected)
            }
        },
    }
}

/// Effect of the answering phase of a User Passkey round-trip: keypress
/// notifications are acknowledged and awaited past, until the host replies
/// or rejects.
pub open spec fn spec_user_passkey_replies(inputs: Seq<Input>, bd_addr: u64, io: Io) -> (
    Io,
    Result<(), PairingError>,
)
    decreases (if io.cursor < inputs.len() {
        inputs.len() - io.cursor
    } else {
        0
    }),
{
    match spec_recv_user_passkey(inputs, io.cursor) {
        None => (io, Err(PairingError::Stalled)),
        Some(PasskeyCommand::Reply) => (
            Io {
                cursor: io.cursor + 1,
                sent: io.sent.push(
                    OutputView::Hci(
                        HciEventView::UserPasskeyRequestReplyComplete {
                            num_hci_command_packets: NUM_HCI_COMMAND_PACKETS,
                            status: ErrorCode::Success,
                            bd_addr,
                        },
                    ),
                ),
            },
            Ok(()),
        ),
        Some(PasskeyCommand::NegativeReply) => (
            Io {
                cursor: io.cursor + 1,
                sent: io.sent.push(
                    OutputView::Hci(
                        HciEventView::UserPasskeyRequestNegativeReplyComplete {
                            num_hci_command_packets: NUM_HCI_COMMAND_PACKETS,
                            status: ErrorCode::Success,
                            bd_addr,
                        },
                    ),
                ),
            },
            Err(PairingError::UserRejected),
        ),
        Some(PasskeyCommand::Keypress) => spec_user_passkey_replies(
            inputs,
            bd_addr,
            Io {
                cursor: io.cursor + 1,
                sent: io.sent.push(
                    OutputView::Hci(
                        HciEventView::SendKeypressNotificationComplete {
                            num_hci_command_packets: NUM_HCI_COMMAND_PACKETS,
                            status: ErrorCode::Success,
                            bd_addr,
                        },
                    ),
                ),
            },
        ),
    }
}

/// Effect of the User Passkey round-trip: one request event, then the
/// answering phase.
pub open spec fn spec_user_passkey_request(inputs: Seq<Input>, bd_addr: u64, io: Io) -> (
    Io,
    Result<(), PairingError>,
) {
    spec_user_passkey_replies(
        inputs,
        bd_addr,
        Io {
            cursor: io.cursor,
            sent: io.sent.push(OutputView::Hci(HciEventView::UserPasskeyRequest { bd_addr })),
        },
    )
}

fn user_passkey_replies(ctx: &mut Context) -> (r: Result<(), PairingError>)
    ensures
        same_env(old(ctx), final(ctx)),
        ({
            let s = spec_user_passkey_replies(old(ctx).inputs@, old(ctx).bd_addr, io_of(old(ctx)));
            io_of(final(ctx)) == s.0 && r == s.1
        }),
    decreases (if old(ctx).cursor < old(ctx).inputs@.len() {
        old(ctx).inputs@.len() - old(ctx).cursor
    } else {
        0
    }),
{
    let bd_addr = ctx.peer_address();
    match ctx.receive_user_passkey() {
        None => Err(PairingError::Stalled),
        Some(PasskeyCommand::Reply) => {
            let complete = HciEvent::UserPasskeyRequestReplyComplete {
                num_hci_command_packets: NUM_HCI_COMMAND_PACKETS,
                status: ErrorCode::Success,
                bd_addr,
            };
            let ghost complete_snapshot = complete;
            let ghost outputs_before = ctx.outputs@;
            ctx.send_hci_event(complete);
            proof {
                lemma_trace_view_push(outputs_before, Output::Hci(complete_snapshot));
            }
            Ok(())
        },
        Some(PasskeyCommand::NegativeReply) => {
            let complete = HciEvent::UserPasskeyRequestNegativeReplyComplete {
                num_hci_command_packets: NUM_HCI_COMMAND_PACKETS,
                status: ErrorCode::Success,
                bd_addr,
            };
            let ghost complete_snapshot = complete;
            let ghost outputs_before = ctx.outputs@;
            ctx.send_hci_event(complete);
            proof {
                lemma_trace_view_push(outputs_before, Output::Hci(complete_snapshot));
            }
            Err(PairingError::UserRejected)
        },
        Some(PasskeyCommand::Keypress) => {
            let complete = HciEvent::SendKeypressNotificationComplete {
                num_hci_command_packets: NUM_HCI_COMMAND_PACKETS,
                status: ErrorCode::Success,
                bd_addr,
            };
            let ghost complete_snapshot = complete;
            let ghost outputs_before = ctx.outputs@;
            ctx.send_hci_event(complete);
            proof {
                lemma_trace_view_push(outputs_before, Output::Hci(complete_snapshot));
            }
            user_passkey_replies(ctx)
        },
    }
}

/// Asks the host for a passkey; keypress notifications are acknowledged
/// without forwarding an LMP keypress notification to the peer.
pub fn user_passkey_request(ctx: &mut Context) -> (r: Result<(), PairingError>)
    ensures
        same_env(old(ctx), final(ctx)),
        ({
            let s = spec_user_passkey_request(old(ctx).inputs@, old(ctx).bd_addr, io_of(old(ctx)));
            io_of(final(ctx)) == s.0 && r == s.1
        }),
{
    let bd_addr = ctx.peer_address();
    let request = HciEvent::UserPasskeyRequest { bd_addr };
    let ghost request_snapshot = request;
    let ghost outputs_before = ctx.outputs@;
    ctx.send_hci_event(request);
    proof {
        lemma_trace_view_push(outputs_before, Output::Hci(request_snapshot));
    }
    user_passkey_replies(ctx)
}

/// Effect of the Remote OOB Data round-trip: one request event, the host's
/// reply or negative reply, and the matching completion event.
pub open spec fn spec_remote_oob_data_request(inputs: Seq<Input>, bd_addr: u64, io: Io) -> (
    Io,
    Result<(), PairingError>,
) {
    let io0 = Io {
        cursor: io.cursor,
        sent: io.sent.push(OutputView::Hci(HciEventView::RemoteOobDataRequest { bd_addr })),
    };
    match spec_recv_remote_oob(inputs, io0.cursor) {
        None => (io0, Err(PairingError::Stalled)),
        Some(supplied) => {
            let complete = if supplied {
                HciEventView::RemoteOobDataRequestReplyComplete {
                    num_hci_command_packets: NUM_HCI_COMMAND_PACKETS,
                    status: ErrorCode::Success,
                    bd_addr,
                }
            } else {
                HciEventView::RemoteOobDataRequestNegativeReplyComplete {
                    num_hci_command_packets: NUM_HCI_COMMAND_PACKETS,
                    status: ErrorCode::Success,
                    bd_addr,
                }
            };
            (
                Io { cursor: io0.cursor + 1, sent: io0.sent.push(OutputView::Hci(complete)) },
                if supplied {
                    Ok(())
                } else {
                    Err(PairingError::UserRejected)
                },
            )
        },
    }
}

/// Asks the host for the remote device's out-of-band data and reports its
/// decision.
pub fn remote_oob_data_request(ctx: &mut Context) -> (r: Result<(), PairingError>)
    ensures
        same_env(old(ctx), final(ctx)),
        ({
            let s = spec_remote_oob_data_request(
                old(ctx).inputs@,
                old(ctx).bd_addr,
                io_of(old(ctx)),
            );
            io_of(final(ctx)) == s.0 && r == s.1
        }),
{
    let bd_addr = ctx.peer_address();
    let request = HciEvent::RemoteOobDataRequest { bd_addr };
    let ghost request_snapshot = request;
    let ghost outputs_before = ctx.outputs@;
    ctx.send_hci_event(request);
    proof {
        lemma_trace_view_push(outputs_before, Output::Hci(request_snapshot));
    }
    match ctx.receive_remote_oob() {
        None => Err(PairingError::Stalled),
        Some(supplied) => {
            let complete = if supplied {
                HciEvent::RemoteOobDataRequestReplyComplete {
                    num_hci_command_packets: NUM_HCI_COMMAND_PACKETS,
                    status: ErrorCode::Success,
                    bd_addr,
                }
            } else {
                HciEvent::RemoteOobDataRequestNegativeReplyComplete {
                    num_hci_command_packets: NUM_HCI_COMMAND_PACKETS,
                    status: ErrorCode::Success,
                    bd_addr,
                }
            };
            let ghost complete_snapshot = complete;
            let ghost outputs_before = ctx.outputs@;
            ctx.send_hci_event(complete);
            proof {
                lemma_trace_view_push(outputs_before, Output::Hci(complete_snapshot));
            }
            if supplied {
                Ok(())
            } else {
                Err(PairingError::UserRejected)
            }
        },
    }
}

} // verus!
