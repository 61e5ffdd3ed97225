//! Crate-level laws of the pairing coordinator, proved over the run
//! specifications: how many terminal HCI events a run emits, and how many
//! commitment rounds a Passkey Entry Stage-1 executes.

use vstd::prelude::*;
use crate::context::Io;
use crate::packets::{
    HciEventView, Input, LmpPacketView, OutputView, count_matching, lemma_count_matching_push,
};
use crate::pairing::{
    PASSKEY_ENTRY_REPEAT_NUMBER, spec_initiate, spec_initiator_stage1, spec_respond,
    spec_responder_stage1,
};
use crate::stage1::{
    spec_receive_commitment, spec_receive_commitment_rounds, spec_send_commitment,
    spec_send_commitment_rounds, spec_user_passkey_replies,
};
use crate::transfer::{spec_recv_chunks, spec_send_chunks};
use crate::types::{AuthenticationParams, ErrorCode, PairingError, spec_authentication_method};

verus! {

/// Whether an emitted output is a Simple Pairing Complete reporting
/// success.
pub open spec fn is_success_complete(o: OutputView) -> bool {
    o matches OutputView::Hci(
        HciEventView::SimplePairingComplete { status: ErrorCode::Success, .. },
    )
}

/// Whether an emitted output is a Simple Pairing Complete reporting an
/// authentication failure.
pub open spec fn is_failure_complete(o: OutputView) -> bool {
    o matches OutputView::Hci(
        HciEventView::SimplePairingComplete { status: ErrorCode::AuthenticationFailure, .. },
    )
}

/// Whether an emitted output is a Link Key Notification.
pub open spec fn is_link_key_notification(o: OutputView) -> bool {
    o matches OutputView::Hci(HciEventView::LinkKeyNotification { .. })
}

/// Whether an emitted output is a Simple Pairing Confirm frame.
pub open spec fn is_confirm_frame(o: OutputView) -> bool {
    o matches OutputView::Lmp(LmpPacketView::SimplePairingConfirm { .. })
}

/// Simple Pairing Complete events with success status in a trace.
pub open spec fn count_success_complete(s: Seq<OutputView>) -> nat {
    count_matching(s, |o: OutputView| is_success_complete(o))
}

/// Simple Pairing Complete events with failure status in a trace.
pub open spec fn count_failure_complete(s: Seq<OutputView>) -> nat {
    count_matching(s, |o: OutputView| is_failure_complete(o))
}

/// Link Key Notifications in a trace.
pub open spec fn count_link_key(s: Seq<OutputView>) -> nat {
    count_matching(s, |o: OutputView| is_link_key_notification(o))
}

/// Simple Pairing Confirm frames in a trace.
pub open spec fn count_confirm(s: Seq<OutputView>) -> nat {
    count_matching(s, |o: OutputView| is_confirm_frame(o))
}

/// Appending one output raises the success-complete count exactly when the
/// output is one.
pub broadcast proof fn lemma_count_success_push(s: Seq<OutputView>, o: OutputView)
    ensures
        #[trigger] count_success_complete(s.push(o)) == count_success_complete(s) + (
        if is_success_complete(o) {
            1nat
        } else {
            0nat
        }),
{
    lemma_count_matching_push(s, |x: OutputView| is_success_complete(x), o);
}

/// Appending one output raises the failure-complete count exactly when the
/// output is one.
pub broadcast proof fn lemma_count_failure_push(s: Seq<OutputView>, o: OutputView)
    ensures
        #[trigger] count_failure_complete(s.push(o)) == count_failure_complete(s) + (
        if is_failure_complete(o) {
            1nat
        } else {
            0nat
        }),
{
    lemma_count_matching_push(s, |x: OutputView| is_failure_complete(x), o);
}

/// Appending one output raises the link-key count exactly when the output
/// is a notification.
pub broadcast proof fn lemma_count_link_key_push(s: Seq<OutputView>, o: OutputView)
    ensures
        #[trigger] count_link_key(s.push(o)) == count_link_key(s) + (
        if is_link_key_notification(o) {
            1nat
        } else {
            0nat
        }),
{
    lemma_count_matching_push(s, |x: OutputView| is_link_key_notification(x), o);
}

/// Appending one output raises the confirm-frame count exactly when the
/// output is one.
pub broadcast proof fn lemma_count_confirm_push(s: Seq<OutputView>, o: OutputView)
    ensures
        #[trigger] count_confirm(s.push(o)) == count_confirm(s) + (if is_confirm_frame(o) {
            1nat
        } else {
            0nat
        }),
{
    lemma_count_matching_push(s, |x: OutputView| is_confirm_frame(x), o);
}

/// The three terminal counts of a trace, bundled for phase lemmas.
pub open spec fn terminal_counts_equal(a: Seq<OutputView>, b: Seq<OutputView>) -> bool {
    &&& count_success_complete(a) == count_success_complete(b)
    &&& count_failure_complete(a) == count_failure_complete(b)
    &&& count_link_key(a) == count_link_key(b)
}

/// Key-chunk transfer emits no terminal event and no confirm frame.
proof fn lemma_send_chunks_free(inputs: Seq<Input>, io: Io, transaction_id: u8, key: Seq<u8>, n: nat)
    ensures
        terminal_counts_equal(spec_send_chunks(inputs, io, transaction_id, key, n).0.sent, io.sent),
        count_confirm(spec_send_chunks(inputs, io, transaction_id, key, n).0.sent) == count_confirm(
            io.sent,
        ),
    decreases n,
{
    broadcast use lemma_count_success_push, lemma_count_failure_push, lemma_count_link_key_push, lemma_count_confirm_push;

    if n > 0 {
        lemma_send_chunks_free(inputs, io, transaction_id, key, (n - 1) as nat);
    }
}

/// Key-chunk reassembly emits no terminal event and no confirm frame.
proof fn lemma_recv_chunks_free(inputs: Seq<Input>, io: Io, transaction_id: u8, n: nat)
    ensures
        terminal_counts_equal(spec_recv_chunks(inputs, io, transaction_id, n).0.sent, io.sent),
        count_confirm(spec_recv_chunks(inputs, io, transaction_id, n).0.sent) == count_confirm(
            io.sent,
        ),
    decreases n,
{
    broadcast use lemma_count_success_push, lemma_count_failure_push, lemma_count_link_key_push, lemma_count_confirm_push;

    if n > 0 {
        lemma_recv_chunks_free(inputs, io, transaction_id, (n - 1) as nat);
    }
}

/// One commitment round emits no terminal event, and exactly one confirm
/// frame when it opens with the local confirm and completes.
proof fn lemma_send_commitment_counts(inputs: Seq<Input>, io: Io, skip_first: bool)
    ensures
        terminal_counts_equal(spec_send_commitment(inputs, io, skip_first).0.sent, io.sent),
        !skip_first ==> count_confirm(spec_send_commitment(inputs, io, skip_first).0.sent)
            == count_confirm(io.sent) + 1,
        spec_send_commitment(inputs, io, skip_first).1 matches Err(e) ==> (e is Stalled
            || e is CommitmentMismatch),
{
    broadcast use lemma_count_success_push, lemma_count_failure_push, lemma_count_link_key_push, lemma_count_confirm_push;

}

/// One responder-side commitment round emits no terminal event, and exactly
/// one confirm frame when it completes.
proof fn lemma_receive_commitment_counts(inputs: Seq<Input>, io: Io, skip_first: bool)
    ensures
        terminal_counts_equal(spec_receive_commitment(inputs, io, skip_first).0.sent, io.sent),
        spec_receive_commitment(inputs, io, skip_first).1 is Ok ==> count_confirm(
            spec_receive_commitment(inputs, io, skip_first).0.sent,
        ) == count_confirm(io.sent) + 1,
        spec_receive_commitment(inputs, io, skip_first).1 matches Err(e) ==> (e is Stalled
            || e is CommitmentMismatch),
{
    broadcast use lemma_count_success_push, lemma_count_failure_push, lemma_count_link_key_push, lemma_count_confirm_push;

}

/// Commitment rounds emit no terminal event; a completed sequence of `n`
/// rounds emits exactly `n` confirm frames.
proof fn lemma_send_rounds_counts(inputs: Seq<Input>, io: Io, n: nat)
    ensures
        terminal_counts_equal(spec_send_commitment_rounds(inputs, io, n).0.sent, io.sent),
        spec_send_commitment_rounds(inputs, io, n).1 is Ok ==> count_confirm(
            spec_send_commitment_rounds(inputs, io, n).0.sent,
        ) == count_confirm(io.sent) + n,
        spec_send_commitment_rounds(inputs, io, n).1 matches Err(e) ==> (e is Stalled
            || e is CommitmentMismatch),
    decreases n,
{
    if n > 0 {
        lemma_send_rounds_counts(inputs, io, (n - 1) as nat);
        let prev = spec_send_commitment_rounds(inputs, io, (n - 1) as nat);
        if prev.1 is Ok {
            lemma_send_commitment_counts(inputs, prev.0, false);
        }
    }
}

/// Responder-side commitment rounds emit no terminal event; a completed
/// sequence of `n` rounds emits exactly `n` confirm frames.
proof fn lemma_receive_rounds_counts(inputs: Seq<Input>, io: Io, n: nat)
    ensures
        terminal_counts_equal(spec_receive_commitment_rounds(inputs, io, n).0.sent, io.sent),
        spec_receive_commitment_rounds(inputs, io, n).1 is Ok ==> count_confirm(
            spec_receive_commitment_rounds(inputs, io, n).0.sent,
        ) == count_confirm(io.sent) + n,
        spec_receive_commitment_rounds(inputs, io, n).1 matches Err(e) ==> (e is Stalled
            || e is CommitmentMismatch),
    decreases n,
{
    if n > 0 {
        lemma_receive_rounds_counts(inputs, io, (n - 1) as nat);
        let prev = spec_receive_commitment_rounds(inputs, io, (n - 1) as nat);
        if prev.1 is Ok {
            lemma_receive_commitment_counts(inputs, prev.0, false);
        }
    }
}

/// The passkey answering phase emits no terminal event and no LMP frame at
/// all.
proof fn lemma_passkey_replies_free(inputs: Seq<Input>, bd_addr: u64, io: Io)
    ensures
        terminal_counts_equal(spec_user_passkey_replies(inputs, bd_addr, io).0.sent, io.sent),
        count_confirm(spec_user_passkey_replies(inputs, bd_addr, io).0.sent) == count_confirm(
            io.sent,
        ),
        spec_user_passkey_replies(inputs, bd_addr, io).1 matches Err(e) ==> (e is Stalled
            || e is UserRejected),
    decreases (if io.cursor < inputs.len() {
        inputs.len() - io.cursor
    } else {
        0
    }),
{
    broadcast use lemma_count_success_push, lemma_count_failure_push, lemma_count_link_key_push, lemma_count_confirm_push;

    match crate::context::spec_recv_user_passkey(inputs, io.cursor) {
        Some(crate::context::PasskeyCommand::Keypress) => {
            lemma_passkey_replies_free(
                inputs,
                bd_addr,
                Io {
                    cursor: io.cursor + 1,
                    sent: io.sent.push(
                        OutputView::Hci(
                            HciEventView::SendKeypressNotificationComplete {
                                num_hci_command_packets: crate::packets::NUM_HCI_COMMAND_PACKETS,
                                status: ErrorCode::Success,
                                bd_addr,
                            },
                        ),
                    ),
                },
            );
        },
        _ => {},
    }
}

/// Stage-1 emits no terminal HCI event, whatever the method and however it
/// ends.
proof fn lemma_initiator_stage1_counts(
    inputs: Seq<Input>,
    bd_addr: u64,
    io: Io,
    initiator: AuthenticationParams,
    responder: AuthenticationParams,
)
    ensures
        terminal_counts_equal(
            spec_initiator_stage1(inputs, bd_addr, io, initiator, responder).0.sent,
            io.sent,
        ),
        spec_initiator_stage1(inputs, bd_addr, io, initiator, responder).1 matches Err(e) ==> (
        e is Stalled || e is UserRejected || e is CommitmentMismatch),
{
    broadcast use lemma_count_success_push, lemma_count_failure_push, lemma_count_link_key_push, lemma_count_confirm_push;

    match spec_authentication_method(initiator, responder) {
        crate::types::AuthenticationMethod::NumericComparaisonJustWork
        | crate::types::AuthenticationMethod::NumericComparaisonUserConfirm => {
            lemma_send_commitment_counts(inputs, io, true);
        },
        crate::types::AuthenticationMethod::PasskeyEntry => {
            if initiator.io_capability is KeyboardOnly {
                lemma_passkey_replies_free(
                    inputs,
                    bd_addr,
                    Io {
                        cursor: io.cursor,
                        sent: io.sent.push(
                            OutputView::Hci(HciEventView::UserPasskeyRequest { bd_addr }),
                        ),
                    },
                );
                let first = crate::stage1::spec_user_passkey_request(inputs, bd_addr, io);
                if first.1 is Ok {
                    lemma_send_rounds_counts(inputs, first.0, PASSKEY_ENTRY_REPEAT_NUMBER as nat);
                }
            } else {
                let first = Io {
                    cursor: io.cursor,
                    sent: io.sent.push(
                        OutputView::Hci(
                            HciEventView::UserPasskeyNotification { bd_addr, passkey: 0 },
                        ),
                    ),
                };
                lemma_send_rounds_counts(inputs, first, PASSKEY_ENTRY_REPEAT_NUMBER as nat);
            }
        },
        crate::types::AuthenticationMethod::OutOfBand => {
            let first = if !(initiator.oob_data_present is NotPresent) {
                crate::stage1::spec_remote_oob_data_request(inputs, bd_addr, io)
            } else {
                (io, Ok::<(), PairingError>(()))
            };
            if first.1 is Ok {
                lemma_send_commitment_counts(inputs, first.0, false);
            }
        },
    }
}

/// Responder Stage-1 emits no terminal HCI event, whatever the method and
/// however it ends.
proof fn lemma_responder_stage1_counts(
    inputs: Seq<Input>,
    bd_addr: u64,
    io: Io,
    initiator: AuthenticationParams,
    responder: AuthenticationParams,
)
    ensures
        terminal_counts_equal(
            spec_responder_stage1(inputs, bd_addr, io, initiator, responder).0.sent,
            io.sent,
        ),
        spec_responder_stage1(inputs, bd_addr, io, initiator, responder).1 matches Err(e) ==> (
        e is Stalled || e is CommitmentMismatch),
{
    broadcast use lemma_count_success_push, lemma_count_failure_push, lemma_count_link_key_push, lemma_count_confirm_push;

    match spec_authentication_method(initiator, responder) {
        crate::types::AuthenticationMethod::NumericComparaisonJustWork
        | crate::types::AuthenticationMethod::NumericComparaisonUserConfirm => {
            lemma_receive_commitment_counts(inputs, io, true);
        },
        crate::types::AuthenticationMethod::PasskeyEntry => {
            if responder.io_capability is KeyboardOnly {
                lemma_passkey_replies_free(
                    inputs,
                    bd_addr,
                    Io {
                        cursor: io.cursor,
                        sent: io.sent.push(
                            OutputView::Hci(HciEventView::UserPasskeyRequest { bd_addr }),
                        ),
                    },
                );
                let first = crate::stage1::spec_user_passkey_request(inputs, bd_addr, io);
                if !(first.1 matches Err(PairingError::Stalled)) {
                    lemma_receive_rounds_counts(
                        inputs,
                        first.0,
                        PASSKEY_ENTRY_REPEAT_NUMBER as nat,
                    );
                }
            } else {
                let first = Io {
                    cursor: io.cursor,
                    sent: io.sent.push(
                        OutputView::Hci(
                            HciEventView::UserPasskeyNotification { bd_addr, passkey: 0 },
                        ),
                    ),
                };
                lemma_receive_rounds_counts(inputs, first, PASSKEY_ENTRY_REPEAT_NUMBER as nat);
            }
        },
        crate::types::AuthenticationMethod::OutOfBand => {
            let first = if !(responder.oob_data_present is NotPresent) {
                crate::stage1::spec_remote_oob_data_request(inputs, bd_addr, io)
            } else {
                (io, Ok::<(), PairingError>(()))
            };
            if !(first.1 matches Err(PairingError::Stalled)) {
                lemma_receive_commitment_counts(inputs, first.0, false);
            }
        },
    }
}

/// An initiator run emits exactly one terminal HCI event: on success one
/// Simple Pairing Complete reporting success, with the Link Key
/// Notification as the very last emitted event; on an observed failure one
/// Simple Pairing Complete reporting authentication failure and no
/// notification; on a challenge/response failure the already-emitted
/// success report and nothing further; and on a stall, or on a peer frame
/// the machine cannot decode, no notification ever.
pub proof fn lemma_initiate_terminal_events(
    inputs: Seq<Input>,
    bd_addr: u64,
    secure_connections: bool,
    io: Io,
)
    ensures
        ({
            let s = spec_initiate(inputs, bd_addr, secure_connections, io);
            match s.1 {
                Ok(_) => {
                    &&& count_success_complete(s.0.sent) == count_success_complete(io.sent) + 1
                    &&& count_failure_complete(s.0.sent) == count_failure_complete(io.sent)
                    &&& count_link_key(s.0.sent) == count_link_key(io.sent) + 1
                    &&& s.0.sent.len() > 0
                    &&& is_link_key_notification(s.0.sent.last())
                },
                Err(PairingError::Stalled) => {
                    &&& count_failure_complete(s.0.sent) == count_failure_complete(io.sent)
                    &&& count_link_key(s.0.sent) == count_link_key(io.sent)
                    &&& count_success_complete(s.0.sent) <= count_success_complete(io.sent) + 1
                },
                Err(PairingError::AuthenticationFailed) => {
                    &&& count_success_complete(s.0.sent) == count_success_complete(io.sent) + 1
                    &&& count_failure_complete(s.0.sent) == count_failure_complete(io.sent)
                    &&& count_link_key(s.0.sent) == count_link_key(io.sent)
                },
                Err(PairingError::InvalidPeerParameters) | Err(PairingError::InvalidKeySize) => {
                    &&& count_success_complete(s.0.sent) == count_success_complete(io.sent)
                    &&& count_failure_complete(s.0.sent) == count_failure_complete(io.sent)
                    &&& count_link_key(s.0.sent) == count_link_key(io.sent)
                },
                Err(_) => {
                    &&& count_success_complete(s.0.sent) == count_success_complete(io.sent)
                    &&& count_failure_complete(s.0.sent) == count_failure_complete(io.sent) + 1
                    &&& count_link_key(s.0.sent) == count_link_key(io.sent)
                },
            }
        }),
{
    broadcast use lemma_count_success_push, lemma_count_failure_push, lemma_count_link_key_push, lemma_count_confirm_push;

    let a = crate::pairing::spec_initiator_local_capability(inputs, bd_addr, io);
    match a.1 {
        None => {},
        Some(initiator) => {
            let b = crate::pairing::spec_initiator_peer_capability(inputs, bd_addr, a.0);
            match b.1 {
                Err(_) => {},
                Ok(responder) => {
                    let local_key = crate::bytes::zeros(
                        if secure_connections {
                            64nat
                        } else {
                            48nat
                        },
                    );
                    let c = crate::transfer::spec_send_public_key(inputs, b.0, 0, local_key);
                    lemma_send_chunks_free(
                        inputs,
                        Io {
                            cursor: b.0.cursor + 1,
                            sent: b.0.sent.push(
                                crate::transfer::view_encapsulated_header(
                                    0,
                                    local_key.len() as u8,
                                ),
                            ),
                        },
                        0,
                        local_key,
                        (local_key.len() / 16) as nat,
                    );
                    if c.1 {
                        let d = crate::transfer::spec_receive_public_key(inputs, c.0, 0);
                        match crate::context::spec_recv_encapsulated_header(inputs, c.0.cursor) {
                            None => {},
                            Some(payload_length) => {
                                if payload_length == 48 || payload_length == 64 {
                                    lemma_recv_chunks_free(
                                        inputs,
                                        crate::transfer::spec_receive_header_io(inputs, c.0, 0),
                                        0,
                                        (payload_length / 16) as nat,
                                    );
                                }
                            },
                        }
                        match d.1 {
                            Err(_) => {},
                            Ok(peer_key) => {
                                lemma_initiator_stage1_counts(
                                    inputs,
                                    bd_addr,
                                    d.0,
                                    initiator,
                                    responder,
                                );
                            },
                        }
                    }
                },
            }
        },
    }
}

/// A responder run emits exactly one terminal HCI event, in the same sense
/// as the initiator's law.
pub proof fn lemma_respond_terminal_events(
    inputs: Seq<Input>,
    bd_addr: u64,
    request: crate::packets::IoCapabilityFields,
    io: Io,
)
    ensures
        ({
            let s = spec_respond(inputs, bd_addr, request, io);
            match s.1 {
                Ok(_) => {
                    &&& count_success_complete(s.0.sent) == count_success_complete(io.sent) + 1
                    &&& count_failure_complete(s.0.sent) == count_failure_complete(io.sent)
                    &&& count_link_key(s.0.sent) == count_link_key(io.sent) + 1
                    &&& s.0.sent.len() > 0
                    &&& is_link_key_notification(s.0.sent.last())
                },
                Err(PairingError::Stalled) => {
                    &&& count_failure_complete(s.0.sent) == count_failure_complete(io.sent)
                    &&& count_link_key(s.0.sent) == count_link_key(io.sent)
                    &&& count_success_complete(s.0.sent) <= count_success_complete(io.sent) + 1
                },
                Err(PairingError::AuthenticationFailed) => {
                    &&& count_success_complete(s.0.sent) == count_success_complete(io.sent) + 1
                    &&& count_failure_complete(s.0.sent) == count_failure_complete(io.sent)
                    &&& count_link_key(s.0.sent) == count_link_key(io.sent)
                },
                Err(PairingError::InvalidPeerParameters) | Err(PairingError::InvalidKeySize) => {
                    &&& count_success_complete(s.0.sent) == count_success_complete(io.sent)
                    &&& count_failure_complete(s.0.sent) == count_failure_complete(io.sent)
                    &&& count_link_key(s.0.sent) == count_link_key(io.sent)
                },
                Err(_) => {
                    &&& count_success_complete(s.0.sent) == count_success_complete(io.sent)
                    &&& count_failure_complete(s.0.sent) == count_failure_complete(io.sent) + 1
                    &&& count_link_key(s.0.sent) == count_link_key(io.sent)
                },
            }
        }),
{
    broadcast use lemma_count_success_push, lemma_count_failure_push, lemma_count_link_key_push, lemma_count_confirm_push;

    let a = crate::pairing::spec_responder_peer_capability(bd_addr, io, request);
    match a.1 {
        Err(_) => {},
        Ok(initiator) => {
            let b = crate::pairing::spec_responder_local_capability(inputs, bd_addr, a.0);
            match b.1 {
                None => {},
                Some(responder) => {
                    let c = crate::transfer::spec_receive_public_key(inputs, b.0, 0);
                    match crate::context::spec_recv_encapsulated_header(inputs, b.0.cursor) {
                        None => {},
                        Some(payload_length) => {
                            if payload_length == 48 || payload_length == 64 {
                                lemma_recv_chunks_free(
                                    inputs,
                                    crate::transfer::spec_receive_header_io(inputs, b.0, 0),
                                    0,
                                    (payload_length / 16) as nat,
                                );
                            }
                        },
                    }
                    match c.1 {
                        Err(_) => {},
                        Ok(peer_key) => {
                            let local_key = crate::bytes::zeros(peer_key.len());
                            let d = crate::transfer::spec_send_public_key(
                                inputs,
                                c.0,
                                0,
                                local_key,
                            );
                            lemma_send_chunks_free(
                                inputs,
                                Io {
                                    cursor: c.0.cursor + 1,
                                    sent: c.0.sent.push(
                                        crate::transfer::view_encapsulated_header(
                                            0,
                                            local_key.len() as u8,
                                        ),
                                    ),
                                },
                                0,
                                local_key,
                                (local_key.len() / 16) as nat,
                            );
                            if d.1 {
                                lemma_responder_stage1_counts(
                                    inputs,
                                    bd_addr,
                                    d.0,
                                    initiator,
                                    responder,
                                );
                            }
                        },
                    }
                },
            }
        },
    }
}

/// A Passkey Entry Stage-1 that completes has executed exactly the twenty
/// prescribed commitment rounds: it emits exactly twenty Simple Pairing
/// Confirm frames, one per round, on the initiator side.
pub proof fn lemma_passkey_entry_initiator_rounds(
    inputs: Seq<Input>,
    bd_addr: u64,
    io: Io,
    initiator: AuthenticationParams,
    responder: AuthenticationParams,
)
    requires
        spec_authentication_method(initiator, responder) is PasskeyEntry,
    ensures
        ({
            let s = spec_initiator_stage1(inputs, bd_addr, io, initiator, responder);
            s.1 is Ok ==> count_confirm(s.0.sent) == count_confirm(io.sent)
                + PASSKEY_ENTRY_REPEAT_NUMBER
        }),
{
    broadcast use lemma_count_success_push, lemma_count_failure_push, lemma_count_link_key_push, lemma_count_confirm_push;

    if initiator.io_capability is KeyboardOnly {
        lemma_passkey_replies_free(
            inputs,
            bd_addr,
            Io {
                cursor: io.cursor,
                sent: io.sent.push(OutputView::Hci(HciEventView::UserPasskeyRequest { bd_addr })),
            },
        );
        let first = crate::stage1::spec_user_passkey_request(inputs, bd_addr, io);
        if first.1 is Ok {
            lemma_send_rounds_counts(inputs, first.0, PASSKEY_ENTRY_REPEAT_NUMBER as nat);
        }
    } else {
        let first = Io {
            cursor: io.cursor,
            sent: io.sent.push(
                OutputView::Hci(HciEventView::UserPasskeyNotification { bd_addr, passkey: 0 }),
            ),
        };
        lemma_send_rounds_counts(inputs, first, PASSKEY_ENTRY_REPEAT_NUMBER as nat);
    }
}

/// The responder-side counterpart: a completed Passkey Entry Stage-1 emits
/// exactly twenty Simple Pairing Confirm frames, one per round.
pub proof fn lemma_passkey_entry_responder_rounds(
    inputs: Seq<Input>,
    bd_addr: u64,
    io: Io,
    initiator: AuthenticationParams,
    responder: AuthenticationParams,
)
    requires
        spec_authentication_method(initiator, responder) is PasskeyEntry,
    ensures
        ({
            let s = spec_responder_stage1(inputs, bd_addr, io, initiator, responder);
            s.1 is Ok ==> count_confirm(s.0.sent) == count_confirm(io.sent)
                + PASSKEY_ENTRY_REPEAT_NUMBER
        }),
{
    broadcast use lemma_count_success_push, lemma_count_failure_push, lemma_count_link_key_push, lemma_count_confirm_push;

    if responder.io_capability is KeyboardOnly {
        lemma_passkey_replies_free(
            inputs,
            bd_addr,
            Io {
                cursor: io.cursor,
                sent: io.sent.push(OutputView::Hci(HciEventView::UserPasskeyRequest { bd_addr })),
            },
        );
        let first = crate::stage1::spec_user_passkey_request(inputs, bd_addr, io);
        if !(first.1 matches Err(PairingError::Stalled)) {
            lemma_receive_rounds_counts(inputs, first.0, PASSKEY_ENTRY_REPEAT_NUMBER as nat);
        }
    } else {
        let first = Io {
            cursor: io.cursor,
            sent: io.sent.push(
                OutputView::Hci(HciEventView::UserPasskeyNotification { bd_addr, passkey: 0 }),
            ),
        };
        lemma_receive_rounds_counts(inputs, first, PASSKEY_ENTRY_REPEAT_NUMBER as nat);
    }
}

} // verus!
