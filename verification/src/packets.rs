//! The HCI and LMP surface of the pairing core: the packets and events it
//! emits, the commands and packets it consumes, and spec-level views of the
//! emitted trace.
//!
//! Byte-level wire formats are outside this crate; a packet here carries its
//! decoded fields. Each emitted value also has a ghost mirror whose byte
//! buffers are sequences, so that contracts can construct expected traces.

use vstd::prelude::*;
use crate::types::{
    AuthenticationRequirements, ErrorCode, IoCapability, KeyType, OobDataPresent,
};

verus! {

/// Number of HCI command packets the controller reports in each command
/// complete event.
pub const NUM_HCI_COMMAND_PACKETS: u8 = 1;

/// LMP opcodes this core sends or receives.
#[derive(Clone, Copy, PartialEq, Eq, Structural, Debug)]
pub enum Opcode {
    IoCapabilityReq,
    IoCapabilityRes,
    EncapsulatedHeader,
    EncapsulatedPayload,
    SimplePairingConfirm,
    SimplePairingNumber,
    DhkeyCheck,
    NumericComparaisonFailed,
    Accepted,
    NotAccepted,
}

/// The three raw capability bytes of an LMP IO capability frame.
#[derive(Clone, Copy, PartialEq, Eq, Structural, Debug)]
pub struct IoCapabilityFields {
    pub io_capabilities: u8,
    pub oob_authentication_data: u8,
    pub authentication_requirement: u8,
}

/// An LMP packet, as exchanged with the peer controller.
#[derive(Clone, PartialEq, Eq, Debug)]
pub enum LmpPacket {
    IoCapabilityReq { transaction_id: u8, fields: IoCapabilityFields },
    IoCapabilityRes { transaction_id: u8, fields: IoCapabilityFields },
    EncapsulatedHeader { transaction_id: u8, major_type: u8, minor_type: u8, payload_length: u8 },
    EncapsulatedPayload { transaction_id: u8, data: Vec<u8> },
    SimplePairingConfirm { transaction_id: u8, commitment_value: Vec<u8> },
    SimplePairingNumber { transaction_id: u8, nonce: Vec<u8> },
    DhkeyCheck { transaction_id: u8, confirmation_value: Vec<u8> },
    NumericComparaisonFailed { transaction_id: u8 },
    Accepted { transaction_id: u8, accepted_opcode: Opcode },
    NotAccepted { transaction_id: u8, not_accepted_opcode: Opcode, error_code: u8 },
}

/// Ghost mirror of an LMP packet with byte buffers as sequences.
pub ghost enum LmpPacketView {
    IoCapabilityReq { transaction_id: u8, fields: IoCapabilityFields },
    IoCapabilityRes { transaction_id: u8, fields: IoCapabilityFields },
    EncapsulatedHeader { transaction_id: u8, major_type: u8, minor_type: u8, payload_length: u8 },
    EncapsulatedPayload { transaction_id: u8, data: Seq<u8> },
    SimplePairingConfirm { transaction_id: u8, commitment_value: Seq<u8> },
    SimplePairingNumber { transaction_id: u8, nonce: Seq<u8> },
    DhkeyCheck { transaction_id: u8, confirmation_value: Seq<u8> },
    NumericComparaisonFailed { transaction_id: u8 },
    Accepted { transaction_id: u8, accepted_opcode: Opcode },
    NotAccepted { transaction_id: u8, not_accepted_opcode: Opcode, error_code: u8 },
}

impl View for LmpPacket {
    type V = LmpPacketView;

    open spec fn view(&self) -> LmpPacketView {
        match self {
            LmpPacket::IoCapabilityReq { transaction_id, fields } =>
                LmpPacketView::IoCapabilityReq {
                    transaction_id: *transaction_id,
                    fields: *fields,
                },
            LmpPacket::IoCapabilityRes { transaction_id, fields } =>
                LmpPacketView::IoCapabilityRes {
                    transaction_id: *transaction_id,
                    fields: *fields,
                },
            LmpPacket::EncapsulatedHeader {
                transaction_id,
                major_type,
                minor_type,
                payload_length,
            } => LmpPacketView::EncapsulatedHeader {
                transaction_id: *transaction_id,
                major_type: *major_type,
                minor_type: *minor_type,
                payload_length: *payload_length,
            },
            LmpPacket::EncapsulatedPayload { transaction_id, data } =>
                LmpPacketView::EncapsulatedPayload {
                    transaction_id: *transaction_id,
                    data: data@,
                },
            LmpPacket::SimplePairingConfirm { transaction_id, commitment_value } =>
                LmpPacketView::SimplePairingConfirm {
                    transaction_id: *transaction_id,
                    commitment_value: commitment_value@,
                },
            LmpPacket::SimplePairingNumber { transaction_id, nonce } =>
                LmpPacketView::SimplePairingNumber {
                    transaction_id: *transaction_id,
                    nonce: nonce@,
                },
            LmpPacket::DhkeyCheck { transaction_id, confirmation_value } =>
                LmpPacketView::DhkeyCheck {
                    transaction_id: *transaction_id,
                    confirmation_value: confirmation_value@,
                },
            LmpPacket::NumericComparaisonFailed { transaction_id } =>
                LmpPacketView::NumericComparaisonFailed { transaction_id: *transaction_id },
            LmpPacket::Accepted { transaction_id, accepted_opcode } => LmpPacketView::Accepted {
                transaction_id: *transaction_id,
                accepted_opcode: *accepted_opcode,
            },
            LmpPacket::NotAccepted { transaction_id, not_accepted_opcode, error_code } =>
                LmpPacketView::NotAccepted {
                    transaction_id: *transaction_id,
                    not_accepted_opcode: *not_accepted_opcode,
                    error_code: *error_code,
                },
        }
    }
}

impl LmpPacket {
    /// The opcode of the packet.
    pub open spec fn spec_opcode(&self) -> Opcode {
        match self {
            LmpPacket::IoCapabilityReq { .. } => Opcode::IoCapabilityReq,
            LmpPacket::IoCapabilityRes { .. } => Opcode::IoCapabilityRes,
            LmpPacket::EncapsulatedHeader { .. } => Opcode::EncapsulatedHeader,
            LmpPacket::EncapsulatedPayload { .. } => Opcode::EncapsulatedPayload,
            LmpPacket::SimplePairingConfirm { .. } => Opcode::SimplePairingConfirm,
            LmpPacket::SimplePairingNumber { .. } => Opcode::SimplePairingNumber,
            LmpPacket::DhkeyCheck { .. } => Opcode::DhkeyCheck,
            LmpPacket::NumericComparaisonFailed { .. } => Opcode::NumericComparaisonFailed,
            LmpPacket::Accepted { .. } => Opcode::Accepted,
            LmpPacket::NotAccepted { .. } => Opcode::NotAccepted,
        }
    }

    pub fn opcode(&self) -> (r: Opcode)
        ensures
            r == self.spec_opcode(),
    {
        match self {
            LmpPacket::IoCapabilityReq { .. } => Opcode::IoCapabilityReq,
            LmpPacket::IoCapabilityRes { .. } => Opcode::IoCapabilityRes,
            LmpPacket::EncapsulatedHeader { .. } => Opcode::EncapsulatedHeader,
            LmpPacket::EncapsulatedPayload { .. } => Opcode::EncapsulatedPayload,
            LmpPacket::SimplePairingConfirm { .. } => Opcode::SimplePairingConfirm,
            LmpPacket::SimplePairingNumber { .. } => Opcode::SimplePairingNumber,
            LmpPacket::DhkeyCheck { .. } => Opcode::DhkeyCheck,
            LmpPacket::NumericComparaisonFailed { .. } => Opcode::NumericComparaisonFailed,
            LmpPacket::Accepted { .. } => Opcode::Accepted,
            LmpPacket::NotAccepted { .. } => Opcode::NotAccepted,
        }
    }
}

/// An HCI event emitted to the host.
#[derive(Clone, PartialEq, Eq, Debug)]
pub enum HciEvent {
    IoCapabilityRequest { bd_addr: u64 },
    IoCapabilityRequestReplyComplete { num_hci_command_packets: u8, status: ErrorCode, bd_addr: u64 },
    IoCapabilityResponse {
        bd_addr: u64,
        io_capability: IoCapability,
        oob_data_present: OobDataPresent,
        authentication_requirements: AuthenticationRequirements,
    },
    UserConfirmationRequest { bd_addr: u64, numeric_value: u32 },
    UserConfirmationRequestReplyComplete { num_hci_command_packets: u8, status: ErrorCode, bd_addr: u64 },
    UserConfirmationRequestNegativeReplyComplete { num_hci_command_packets: u8, status: ErrorCode, bd_addr: u64 },
    UserPasskeyRequest { bd_addr: u64 },
    UserPasskeyRequestReplyComplete { num_hci_command_packets: u8, status: ErrorCode, bd_addr: u64 },
    UserPasskeyRequestNegativeReplyComplete { num_hci_command_packets: u8, status: ErrorCode, bd_addr: u64 },
    SendKeypressNotificationComplete { num_hci_command_packets: u8, status: ErrorCode, bd_addr: u64 },
    UserPasskeyNotification { bd_addr: u64, passkey: u32 },
    RemoteOobDataRequest { bd_addr: u64 },
    RemoteOobDataRequestReplyComplete { num_hci_command_packets: u8, status: ErrorCode, bd_addr: u64 },
    RemoteOobDataRequestNegativeReplyComplete { num_hci_command_packets: u8, status: ErrorCode, bd_addr: u64 },
    SimplePairingComplete { status: ErrorCode, bd_addr: u64 },
    LinkKeyNotification { bd_addr: u64, link_key: Vec<u8>, key_type: KeyType },
}

/// Ghost mirror of an HCI event with byte buffers as sequences.
pub ghost enum HciEventView {
    IoCapabilityRequest { bd_addr: u64 },
    IoCapabilityRequestReplyComplete { num_hci_command_packets: u8, status: ErrorCode, bd_addr: u64 },
    IoCapabilityResponse {
        bd_addr: u64,
        io_capability: IoCapability,
        oob_data_present: OobDataPresent,
        authentication_requirements: AuthenticationRequirements,
    },
    UserConfirmationRequest { bd_addr: u64, numeric_value: u32 },
    UserConfirmationRequestReplyComplete { num_hci_command_packets: u8, status: ErrorCode, bd_addr: u64 },
    UserConfirmationRequestNegativeReplyComplete { num_hci_command_packets: u8, status: ErrorCode, bd_addr: u64 },
    UserPasskeyRequest { bd_addr: u64 },
    UserPasskeyRequestReplyComplete { num_hci_command_packets: u8, status: ErrorCode, bd_addr: u64 },
    UserPasskeyRequestNegativeReplyComplete { num_hci_command_packets: u8, status: ErrorCode, bd_addr: u64 },
    SendKeypressNotificationComplete { num_hci_command_packets: u8, status: ErrorCode, bd_addr: u64 },
    UserPasskeyNotification { bd_addr: u64, passkey: u32 },
    RemoteOobDataRequest { bd_addr: u64 },
    RemoteOobDataRequestReplyComplete { num_hci_command_packets: u8, status: ErrorCode, bd_addr: u64 },
    RemoteOobDataRequestNegativeReplyComplete { num_hci_command_packets: u8, status: ErrorCode, bd_addr: u64 },
    SimplePairingComplete { status: ErrorCode, bd_addr: u64 },
    LinkKeyNotification { bd_addr: u64, link_key: Seq<u8>, key_type: KeyType },
}

impl View for HciEvent {
    type V = HciEventView;

    open spec fn view(&self) -> HciEventView {
        match self {
            HciEvent::IoCapabilityRequest { bd_addr } =>
                HciEventView::IoCapabilityRequest { bd_addr: *bd_addr },
            HciEvent::IoCapabilityRequestReplyComplete {
                num_hci_command_packets,
                status,
                bd_addr,
            } => HciEventView::IoCapabilityRequestReplyComplete {
                num_hci_command_packets: *num_hci_command_packets,
                status: *status,
                bd_addr: *bd_addr,
            },
            HciEvent::IoCapabilityResponse {
                bd_addr,
                io_capability,
                oob_data_present,
                authentication_requirements,
            } => HciEventView::IoCapabilityResponse {
                bd_addr: *bd_addr,
                io_capability: *io_capability,
                oob_data_present: *oob_data_present,
                authentication_requirements: *authentication_requirements,
            },
            HciEvent::UserConfirmationRequest { bd_addr, numeric_value } =>
                HciEventView::UserConfirmationRequest {
                    bd_addr: *bd_addr,
                    numeric_value: *numeric_value,
                },
            HciEvent::UserConfirmationRequestReplyComplete {
                num_hci_command_packets,
                status,
                bd_addr,
            } => HciEventView::UserConfirmationRequestReplyComplete {
                num_hci_command_packets: *num_hci_command_packets,
                status: *status,
                bd_addr: *bd_addr,
            },
            HciEvent::UserConfirmationRequestNegativeReplyComplete {
                num_hci_command_packets,
                status,
                bd_addr,
            } => HciEventView::UserConfirmationRequestNegativeReplyComplete {
                num_hci_command_packets: *num_hci_command_packets,
                status: *status,
                bd_addr: *bd_addr,
            },
            HciEvent::UserPasskeyRequest { bd_addr } =>
                HciEventView::UserPasskeyRequest { bd_addr: *bd_addr },
            HciEvent::UserPasskeyRequestReplyComplete {
                num_hci_command_packets,
                status,
                bd_addr,
            } => HciEventView::UserPasskeyRequestReplyComplete {
                num_hci_command_packets: *num_hci_command_packets,
                status: *status,
                bd_addr: *bd_addr,
            },
            HciEvent::UserPasskeyRequestNegativeReplyComplete {
                num_hci_command_packets,
                status,
                bd_addr,
            } => HciEventView::UserPasskeyRequestNegativeReplyComplete {
                num_hci_command_packets: *num_hci_command_packets,
                status: *status,
                bd_addr: *bd_addr,
            },
            HciEvent::SendKeypressNotificationComplete {
                num_hci_command_packets,
                status,
                bd_addr,
            } => HciEventView::SendKeypressNotificationComplete {
                num_hci_command_packets: *num_hci_command_packets,
                status: *status,
                bd_addr: *bd_addr,
            },
            HciEvent::UserPasskeyNotification { bd_addr, passkey } =>
                HciEventView::UserPasskeyNotification { bd_addr: *bd_addr, passkey: *passkey },
            HciEvent::RemoteOobDataRequest { bd_addr } =>
                HciEventView::RemoteOobDataRequest { bd_addr: *bd_addr },
            HciEvent::RemoteOobDataRequestReplyComplete {
                num_hci_command_packets,
                status,
                bd_addr,
            } => HciEventView::RemoteOobDataRequestReplyComplete {
                num_hci_command_packets: *num_hci_command_packets,
                status: *status,
                bd_addr: *bd_addr,
            },
            HciEvent::RemoteOobDataRequestNegativeReplyComplete {
                num_hci_command_packets,
                status,
                bd_addr,
            } => HciEventView::RemoteOobDataRequestNegativeReplyComplete {
                num_hci_command_packets: *num_hci_command_packets,
                status: *status,
                bd_addr: *bd_addr,
            },
            HciEvent::SimplePairingComplete { status, bd_addr } =>
                HciEventView::SimplePairingComplete { status: *status, bd_addr: *bd_addr },
            HciEvent::LinkKeyNotification { bd_addr, link_key, key_type } =>
                HciEventView::LinkKeyNotification {
                    bd_addr: *bd_addr,
                    link_key: link_key@,
                    key_type: *key_type,
                },
        }
    }
}

/// An HCI command received from the host.
#[derive(Clone, Copy, PartialEq, Eq, Structural, Debug)]
pub enum HciCommand {
    IoCapabilityRequestReply {
        io_capability: IoCapability,
        oob_data_present: OobDataPresent,
        authentication_requirements: AuthenticationRequirements,
    },
    UserConfirmationRequestReply,
    UserConfirmationRequestNegativeReply,
    UserPasskeyRequestReply { passkey: u32 },
    UserPasskeyRequestNegativeReply,
    SendKeypressNotification,
    RemoteOobDataRequestReply,
    RemoteOobDataRequestNegativeReply,
}

/// One inbound event a pairing script supplies: an HCI command from the
/// host, an LMP packet from the peer, or the verdict of the external
/// challenge/response step.
#[derive(Clone, PartialEq, Eq, Debug)]
pub enum Input {
    Hci(HciCommand),
    Lmp(LmpPacket),
    ChallengeResult { success: bool },
}

/// One outbound effect of a pairing run: an HCI event to the host, an LMP
/// packet to the peer, or a call into the external challenge/response step.
#[derive(Clone, PartialEq, Eq, Debug)]
pub enum Output {
    Hci(HciEvent),
    Lmp(LmpPacket),
    SendChallenge { transaction_id: u8, link_key: Vec<u8> },
    ReceiveChallenge { link_key: Vec<u8> },
}

/// Ghost mirror of an outbound effect.
pub ghost enum OutputView {
    Hci(HciEventView),
    Lmp(LmpPacketView),
    SendChallenge { transaction_id: u8, link_key: Seq<u8> },
    ReceiveChallenge { link_key: Seq<u8> },
}

impl View for Output {
    type V = OutputView;

    open spec fn view(&self) -> OutputView {
        match self {
            Output::Hci(event) => OutputView::Hci(event@),
            Output::Lmp(packet) => OutputView::Lmp(packet@),
            Output::SendChallenge { transaction_id, link_key } => OutputView::SendChallenge {
                transaction_id: *transaction_id,
                link_key: link_key@,
            },
            Output::ReceiveChallenge { link_key } =>
                OutputView::ReceiveChallenge { link_key: link_key@ },
        }
    }
}

/// The view of a whole emitted trace.
pub open spec fn trace_view(outputs: Seq<Output>) -> Seq<OutputView> {
    outputs.map_values(|o: Output| o@)
}

/// Appending one output appends its view to the trace's view.
pub proof fn lemma_trace_view_push(outputs: Seq<Output>, o: Output)
    ensures
        trace_view(outputs.push(o)) == trace_view(outputs).push(o@),
{
    assert(trace_view(outputs.push(o)) =~= trace_view(outputs).push(o@));
}

/// The view of an outbound LMP Accepted frame.
pub open spec fn view_accepted(transaction_id: u8, accepted_opcode: Opcode) -> OutputView {
    OutputView::Lmp(LmpPacketView::Accepted { transaction_id, accepted_opcode })
}

/// How many emitted outputs satisfy `p`.
pub open spec fn count_matching(s: Seq<OutputView>, p: spec_fn(OutputView) -> bool) -> nat
    decreases s.len(),
{
    if s.len() == 0 {
        0
    } else {
        count_matching(s.drop_last(), p) + (if p(s.last()) {
            1nat
        } else {
            0nat
        })
    }
}

/// Appending one output raises the count by one exactly when `p` holds of it.
pub broadcast proof fn lemma_count_matching_push(
    s: Seq<OutputView>,
    p: spec_fn(OutputView) -> bool,
    o: OutputView,
)
    ensures
        #[trigger] count_matching(s.push(o), p) == count_matching(s, p) + (if p(o) {
            1nat
        } else {
            0nat
        }),
{
    assert(s.push(o).drop_last() =~= s);
}


} // verus!
