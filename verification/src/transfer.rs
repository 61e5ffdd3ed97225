//! Public-key transfer: fragmenting a key over Encapsulated Header and
//! Encapsulated Payload frames of sixteen bytes each, and reassembling a
//! peer's key from the same frames.

use vstd::prelude::*;
use crate::bytes::copy_range;
use crate::context::{
    Context, Io, SendResult, io_of, same_env, spec_recv_encapsulated_header,
    spec_recv_encapsulated_payload, spec_send_accepted,
};
use crate::key::{P192_PUBLIC_KEY_SIZE, P256_PUBLIC_KEY_SIZE, PublicKey};
use crate::packets::{
    Input, LmpPacket, LmpPacketView, Opcode, Output, OutputView, count_matching,
    lemma_count_matching_push, lemma_trace_view_push, view_accepted,
};
use crate::types::PairingError;

verus! {

/// Bytes of key material carried by each Encapsulated Payload frame.
pub const ENCAPSULATED_CHUNK: usize = 16;

/// The view of an outbound Encapsulated Header announcing a public key.
pub open spec fn view_encapsulated_header(transaction_id: u8, payload_length: u8) -> OutputView {
    OutputView::Lmp(
        LmpPacketView::EncapsulatedHeader {
            transaction_id,
            major_type: 1,
            minor_type: 1,
            payload_length,
        },
    )
}

/// The view of an outbound Encapsulated Payload frame.
pub open spec fn view_encapsulated_payload(transaction_id: u8, data: Seq<u8>) -> OutputView {
    OutputView::Lmp(LmpPacketView::EncapsulatedPayload { transaction_id, data })
}

/// Effect of sending the first `n` sixteen-byte chunks of `key`, each as an
/// Encapsulated Payload awaiting its Accepted. A Not Accepted is tolerated;
/// only a stalled await (false) stops the transfer.
pub open spec fn spec_send_chunks(
    inputs: Seq<Input>,
    io: Io,
    transaction_id: u8,
    key: Seq<u8>,
    n: nat,
) -> (Io, bool)
    decreases n,
{
    if n == 0 {
        (io, true)
    } else {
        let prev = spec_send_chunks(inputs, io, transaction_id, key, (n - 1) as nat);
        if !prev.1 {
            prev
        } else {
            let chunk = key.subrange(16 * (n - 1), 16 * n as int);
            let sent = prev.0.sent.push(view_encapsulated_payload(transaction_id, chunk));
            if spec_send_accepted(inputs, prev.0.cursor, Opcode::EncapsulatedPayload)
                is Stalled {
                (Io { cursor: prev.0.cursor, sent }, false)
            } else {
                (Io { cursor: prev.0.cursor + 1, sent }, true)
            }
        }
    }
}

/// Effect of a whole outbound key transfer: the header, then every chunk in
/// order.
pub open spec fn spec_send_public_key(
    inputs: Seq<Input>,
    io: Io,
    transaction_id: u8,
    key: Seq<u8>,
) -> (Io, bool) {
    let sent = io.sent.push(view_encapsulated_header(transaction_id, key.len() as u8));
    if spec_send_accepted(inputs, io.cursor, Opcode::EncapsulatedHeader) is Stalled {
        (Io { cursor: io.cursor, sent }, false)
    } else {
        spec_send_chunks(
            inputs,
            Io { cursor: io.cursor + 1, sent },
            transaction_id,
            key,
            (key.len() / 16) as nat,
        )
    }
}

fn send_chunks(
    ctx: &mut Context,
    transaction_id: u8,
    public_key: &PublicKey,
    n: usize,
) -> (r: Result<(), PairingError>)
    requires
        16 * n <= public_key@.len(),
        public_key@.len() <= 64,
    ensures
        same_env(old(ctx), final(ctx)),
        ({
            let s = spec_send_chunks(
                old(ctx).inputs@,
                io_of(old(ctx)),
                transaction_id,
                public_key@,
                n as nat,
            );
            io_of(final(ctx)) == s.0 && r == (if s.1 {
                Result::<(), PairingError>::Ok(())
            } else {
                Result::<(), PairingError>::Err(PairingError::Stalled)
            })
        }),
    decreases n,
{
    if n == 0 {
        return Ok(());
    }
    let prev = send_chunks(ctx, transaction_id, public_key, n - 1);
    if prev.is_err() {
        return prev;
    }
    let chunk = copy_range(public_key.payload(), 16 * (n - 1), 16 * n);
    let packet = LmpPacket::EncapsulatedPayload { transaction_id, data: chunk };
    let ghost packet_snapshot = packet;
    let ghost outputs_before = ctx.outputs@;
    let res = ctx.send_accepted_lmp_packet(packet);
    proof {
        lemma_trace_view_push(outputs_before, Output::Lmp(packet_snapshot));
    }
    match res {
        SendResult::Stalled => Err(PairingError::Stalled),
        _ => Ok(()),
    }
}

/// Emits one Encapsulated Header carrying the key's size, then each
/// sixteen-byte chunk of the key in order, awaiting the peer's Accepted
/// after every frame. Only a stalled await fails the transfer.
pub fn send_public_key(
    ctx: &mut Context,
    transaction_id: u8,
    public_key: &PublicKey,
) -> (r: Result<(), PairingError>)
    requires
        public_key.wf(),
    ensures
        same_env(old(ctx), final(ctx)),
        ({
            let s = spec_send_public_key(
                old(ctx).inputs@,
                io_of(old(ctx)),
                transaction_id,
                public_key@,
            );
            io_of(final(ctx)) == s.0 && r == (if s.1 {
                Result::<(), PairingError>::Ok(())
            } else {
                Result::<(), PairingError>::Err(PairingError::Stalled)
            })
        }),
{
    let size: usize = public_key.get_size();
    let header = LmpPacket::EncapsulatedHeader {
        transaction_id,
        major_type: 1,
        minor_type: 1,
        payload_length: size as u8,
    };
    let ghost header_snapshot = header;
    let ghost outputs_before = ctx.outputs@;
    let res = ctx.send_accepted_lmp_packet(header);
    proof {
        lemma_trace_view_push(outputs_before, Output::Lmp(header_snapshot));
    }
    match res {
        SendResult::Stalled => Err(PairingError::Stalled),
        _ => send_chunks(ctx, transaction_id, public_key, size / ENCAPSULATED_CHUNK),
    }
}

/// Effect of receiving the next `n` Encapsulated Payload frames, answering
/// each with an Accepted; yields the reassembled bytes, or nothing on a
/// stall.
pub open spec fn spec_recv_chunks(
    inputs: Seq<Input>,
    io: Io,
    transaction_id: u8,
    n: nat,
) -> (Io, Option<Seq<u8>>)
    decreases n,
{
    if n == 0 {
        (io, Some(Seq::<u8>::empty()))
    } else {
        let prev = spec_recv_chunks(inputs, io, transaction_id, (n - 1) as nat);
        match prev.1 {
            None => prev,
            Some(bytes) => match spec_recv_encapsulated_payload(inputs, prev.0.cursor) {
                None => (prev.0, None),
                Some(data) => (
                    Io {
                        cursor: prev.0.cursor + 1,
                        sent: prev.0.sent.push(
                            view_accepted(transaction_id, Opcode::EncapsulatedPayload),
                        ),
                    },
                    Some(bytes + data),
                ),
            },
        }
    }
}

/// Effect of a whole inbound key transfer: the header decides the size and
/// is acknowledged, then every chunk is collected and acknowledged. A header
/// announcing anything but the two curve sizes is rejected.
pub open spec fn spec_receive_public_key(
    inputs: Seq<Input>,
    io: Io,
    transaction_id: u8,
) -> (Io, Result<Seq<u8>, PairingError>) {
    match spec_recv_encapsulated_header(inputs, io.cursor) {
        None => (io, Err(PairingError::Stalled)),
        Some(payload_length) => if payload_length != 48 && payload_length != 64 {
            (Io { cursor: io.cursor + 1, sent: io.sent }, Err(PairingError::InvalidKeySize))
        } else {
            let io1 = Io {
                cursor: io.cursor + 1,
                sent: io.sent.push(view_accepted(transaction_id, Opcode::EncapsulatedHeader)),
            };
            let rc = spec_recv_chunks(inputs, io1, transaction_id, (payload_length / 16) as nat);
            match rc.1 {
                None => (rc.0, Err(PairingError::Stalled)),
                Some(bytes) => (rc.0, Ok(bytes)),
            }
        },
    }
}

fn receive_chunks(ctx: &mut Context, transaction_id: u8, n: usize) -> (r: Option<Vec<u8>>)
    ensures
        same_env(old(ctx), final(ctx)),
        ({
            let s = spec_recv_chunks(old(ctx).inputs@, io_of(old(ctx)), transaction_id, n as nat);
            io_of(final(ctx)) == s.0 && match r {
                Some(bytes) => s.1 == Some(bytes@),
                None => s.1 is None,
            }
        }),
    decreases n,
{
    if n == 0 {
        return Some(Vec::new());
    }
    let prev = receive_chunks(ctx, transaction_id, n - 1);
    match prev {
        None => None,
        Some(mut bytes) => {
            match ctx.receive_encapsulated_payload() {
                None => None,
                Some(data) => {
                    let ghost outputs_before = ctx.outputs@;
                    let accepted = LmpPacket::Accepted {
                        transaction_id,
                        accepted_opcode: Opcode::EncapsulatedPayload,
                    };
                    let ghost accepted_snapshot = accepted;
                    ctx.send_lmp_packet(accepted);
                    proof {
                        lemma_trace_view_push(outputs_before, Output::Lmp(accepted_snapshot));
                    }
                    crate::bytes::append_bytes(&mut bytes, &data);
                    Some(bytes)
                },
            }
        },
    }
}

/// Receives a peer public key: the Encapsulated Header announces the size,
/// which must be a P-192 or P-256 key size, and each sixteen-byte payload
/// frame is copied into the key in order; every frame is answered with an
/// Accepted.
pub fn receive_public_key(ctx: &mut Context, transaction_id: u8) -> (r: Result<
    PublicKey,
    PairingError,
>)
    ensures
        same_env(old(ctx), final(ctx)),
        ({
            let s = spec_receive_public_key(old(ctx).inputs@, io_of(old(ctx)), transaction_id);
            io_of(final(ctx)) == s.0 && match r {
                Ok(key) => s.1 == Ok::<Seq<u8>, PairingError>(key@) && key.wf(),
                Err(e) => s.1 == Err::<Seq<u8>, PairingError>(e),
            }
        }),
{
    let payload_length: u8 = match ctx.receive_encapsulated_header() {
        None => {
            return Err(PairingError::Stalled);
        },
        Some(payload_length) => payload_length,
    };
    let key_size: usize = payload_length as usize;
    if key_size != P192_PUBLIC_KEY_SIZE && key_size != P256_PUBLIC_KEY_SIZE {
        return Err(PairingError::InvalidKeySize);
    }
    let ghost outputs_before = ctx.outputs@;
    let accepted = LmpPacket::Accepted {
        transaction_id,
        accepted_opcode: Opcode::EncapsulatedHeader,
    };
    let ghost accepted_snapshot = accepted;
    ctx.send_lmp_packet(accepted);
    proof {
        lemma_trace_view_push(outputs_before, Output::Lmp(accepted_snapshot));
    }
    match receive_chunks(ctx, transaction_id, key_size / ENCAPSULATED_CHUNK) {
        None => Err(PairingError::Stalled),
        Some(bytes) => {
            assert(bytes@.len() == key_size) by {
                lemma_recv_chunks_length(
                    old(ctx).inputs@,
                    spec_receive_header_io(old(ctx).inputs@, io_of(old(ctx)), transaction_id),
                    transaction_id,
                    (key_size / 16) as nat,
                );
            };
            match PublicKey::from_bytes(key_size, bytes) {
                Some(key) => Ok(key),
                None => Err(PairingError::InvalidKeySize),
            }
        },
    }
}

/// The progress after the inbound header has been consumed and acknowledged.
pub open spec fn spec_receive_header_io(inputs: Seq<Input>, io: Io, transaction_id: u8) -> Io {
    Io {
        cursor: io.cursor + 1,
        sent: io.sent.push(view_accepted(transaction_id, Opcode::EncapsulatedHeader)),
    }
}

/// Reassembling `n` chunks yields sixteen bytes per chunk.
pub proof fn lemma_recv_chunks_length(inputs: Seq<Input>, io: Io, transaction_id: u8, n: nat)
    ensures
        ({
            let s = spec_recv_chunks(inputs, io, transaction_id, n);
            s.1 matches Some(bytes) ==> bytes.len() == 16 * n
        }),
    decreases n,
{
    if n > 0 {
        lemma_recv_chunks_length(inputs, io, transaction_id, (n - 1) as nat);
    }
}

/// Whether an emitted output is an Encapsulated Payload frame.
pub open spec fn is_payload_frame(o: OutputView) -> bool {
    o matches OutputView::Lmp(LmpPacketView::EncapsulatedPayload { .. })
}

/// Sending the first `n` chunks emits exactly `n` Encapsulated Payload
/// frames (and, on a stall, exactly as many as were attempted).
proof fn lemma_send_chunks_frame_count(
    inputs: Seq<Input>,
    io: Io,
    transaction_id: u8,
    key: Seq<u8>,
    n: nat,
)
    ensures
        ({
            let s = spec_send_chunks(inputs, io, transaction_id, key, n);
            s.1 ==> count_matching(s.0.sent, |o: OutputView| is_payload_frame(o)) == count_matching(
                io.sent,
                |o: OutputView| is_payload_frame(o),
            ) + n
        }),
    decreases n,
{
    if n > 0 {
        lemma_send_chunks_frame_count(inputs, io, transaction_id, key, (n - 1) as nat);
        let prev = spec_send_chunks(inputs, io, transaction_id, key, (n - 1) as nat);
        if prev.1 {
            let chunk = key.subrange(16 * (n - 1), 16 * n as int);
            lemma_count_matching_push(
                prev.0.sent,
                |o: OutputView| is_payload_frame(o),
                view_encapsulated_payload(transaction_id, chunk),
            );
        }
    }
}

/// A key transferred out comprises exactly one payload frame per sixteen
/// bytes of key material: three frames for a P-192 key, four for a P-256
/// key.
pub proof fn lemma_send_public_key_frame_count(
    inputs: Seq<Input>,
    io: Io,
    transaction_id: u8,
    key: Seq<u8>,
)
    requires
        key.len() == 48 || key.len() == 64,
    ensures
        ({
            let s = spec_send_public_key(inputs, io, transaction_id, key);
            s.1 ==> count_matching(s.0.sent, |o: OutputView| is_payload_frame(o)) == count_matching(
                io.sent,
                |o: OutputView| is_payload_frame(o),
            ) + (if key.len() == 48 {
                3nat
            } else {
                4nat
            })
        }),
{
    let sent = io.sent.push(view_encapsulated_header(transaction_id, key.len() as u8));
    lemma_count_matching_push(
        io.sent,
        |o: OutputView| is_payload_frame(o),
        view_encapsulated_header(transaction_id, key.len() as u8),
    );
    if !(spec_send_accepted(inputs, io.cursor, Opcode::EncapsulatedHeader) is Stalled) {
        lemma_send_chunks_frame_count(
            inputs,
            Io { cursor: io.cursor + 1, sent },
            transaction_id,
            key,
            (key.len() / 16) as nat,
        );
    }
}

/// A key received comprises exactly one inbound payload frame per sixteen
/// bytes: the reassembled key of a P-192 header took three frames, of a
/// P-256 header four, each answered with its own Accepted.
pub proof fn lemma_receive_public_key_chunk_count(inputs: Seq<Input>, io: Io, transaction_id: u8)
    ensures
        ({
            let s = spec_receive_public_key(inputs, io, transaction_id);
            s.1 matches Ok(bytes) ==> {
                &&& bytes.len() == 48 || bytes.len() == 64
                &&& s.0.cursor == io.cursor + 1 + bytes.len() / 16
                &&& s.0.sent.len() == io.sent.len() + 1 + bytes.len() / 16
            }
        }),
{
    match spec_recv_encapsulated_header(inputs, io.cursor) {
        None => {},
        Some(payload_length) => {
            if payload_length == 48 || payload_length == 64 {
                let io1 = spec_receive_header_io(inputs, io, transaction_id);
                lemma_recv_chunks_length(inputs, io1, transaction_id, (payload_length / 16) as nat);
                lemma_recv_chunks_progress(inputs, io1, transaction_id, (payload_length / 16) as nat);
            }
        },
    }
}

/// Each successfully received chunk advances the script by one event and
/// the trace by one Accepted.
proof fn lemma_recv_chunks_progress(inputs: Seq<Input>, io: Io, transaction_id: u8, n: nat)
    ensures
        ({
            let s = spec_recv_chunks(inputs, io, transaction_id, n);
            s.1 is Some ==> s.0.cursor == io.cursor + n && s.0.sent.len() == io.sent.len() + n
        }),
    decreases n,
{
    if n > 0 {
        lemma_recv_chunks_progress(inputs, io, transaction_id, (n - 1) as nat);
    }
}

} // verus!
