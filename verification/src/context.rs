//! The I/O context a pairing run drives: a script of inbound events,
//! consumed strictly in order, and the trace of everything emitted.
//!
//! The enclosing emulator routes each inbound HCI command or LMP packet to
//! the awaiting machine; the machine itself assumes every receive yields the
//! next event of its stated shape. A receive that meets the script's end, or
//! an event of another shape, leaves the machine suspended: the receive
//! reports nothing and the run ends with a stalled outcome, emitting no
//! further events.

use vstd::prelude::*;
use crate::bytes::copy_range;
use crate::packets::{
    HciCommand, HciEvent, Input, IoCapabilityFields, LmpPacket, Opcode, Output, OutputView,
    trace_view,
};
use crate::types::AuthenticationParams;

verus! {

/// Verdict of sending an LMP packet that awaits the peer's answer.
#[derive(Clone, Copy, PartialEq, Eq, Structural, Debug)]
pub enum SendResult {
    Accepted,
    NotAccepted,
    Stalled,
}

/// What the host answered to a User Passkey Request.
#[derive(Clone, Copy, PartialEq, Eq, Structural, Debug)]
pub enum PasskeyCommand {
    Reply,
    NegativeReply,
    Keypress,
}

/// The packet observed at the responder's Stage-2 gate.
#[derive(Clone, Copy, PartialEq, Eq, Structural, Debug)]
pub enum Stage2Gate {
    PeerFailed,
    DhkeyCheck,
}

/// A single pairing's environment: the peer's address, the feature
/// collaborator's verdict on Secure Connections Host Support, the inbound
/// script, and the outbound trace.
pub struct Context {
    pub bd_addr: u64,
    pub secure_connections: bool,
    pub inputs: Vec<Input>,
    pub cursor: usize,
    pub outputs: Vec<Output>,
}

/// Ghost summary of a context's progress: how far into the script the
/// machine has read, and the view of everything emitted so far.
pub ghost struct Io {
    pub cursor: int,
    pub sent: Seq<OutputView>,
}

/// The progress summary of a context.
pub open spec fn io_of(c: &Context) -> Io {
    Io { cursor: c.cursor as int, sent: trace_view(c.outputs@) }
}

/// The parts of a context a pairing run never changes.
pub open spec fn same_env(before: &Context, after: &Context) -> bool {
    &&& after.bd_addr == before.bd_addr
    &&& after.secure_connections == before.secure_connections
    &&& after.inputs == before.inputs
}

/// The inbound event at `cursor`, if the script still has one.
pub open spec fn at_input(inputs: Seq<Input>, cursor: int) -> Option<Input> {
    if 0 <= cursor < inputs.len() {
        Some(inputs[cursor])
    } else {
        None
    }
}

/// What awaiting an Accepted or Not Accepted for `opcode` yields at `cursor`.
pub open spec fn spec_send_accepted(inputs: Seq<Input>, cursor: int, opcode: Opcode) -> SendResult {
    match at_input(inputs, cursor) {
        Some(Input::Lmp(LmpPacket::Accepted { accepted_opcode, .. })) => if accepted_opcode
            == opcode {
            SendResult::Accepted
        } else {
            SendResult::Stalled
        },
        Some(Input::Lmp(LmpPacket::NotAccepted { not_accepted_opcode, .. })) => if not_accepted_opcode
            == opcode {
            SendResult::NotAccepted
        } else {
            SendResult::Stalled
        },
        _ => SendResult::Stalled,
    }
}

impl Context {
    /// A fresh context for one pairing, positioned at the script's start.
    pub fn new(bd_addr: u64, secure_connections: bool, inputs: Vec<Input>) -> (r: Context)
        ensures
            r.bd_addr == bd_addr,
            r.secure_connections == secure_connections,
            r.inputs == inputs,
            r.cursor == 0,
            r.outputs@ == Seq::<Output>::empty(),
    {
        Context { bd_addr, secure_connections, inputs, cursor: 0, outputs: Vec::new() }
    }

    /// BD_ADDR of the remote device.
    pub fn peer_address(&self) -> (r: u64)
        ensures
            r == self.bd_addr,
    {
        self.bd_addr
    }

    /// Models the feature collaborator: whether Secure Connections Host
    /// Support is set on feature page 1 of both peers.
    pub fn supported_on_both_page1(&self) -> (r: bool)
        ensures
            r == self.secure_connections,
    {
        self.secure_connections
    }

    /// Emits one HCI event to the host.
    pub fn send_hci_event(&mut self, event: HciEvent)
        ensures
            same_env(old(self), final(self)),
            final(self).cursor == old(self).cursor,
            final(self).outputs@ == old(self).outputs@.push(Output::Hci(event)),
    {
        self.outputs.push(Output::Hci(event));
    }

    /// Emits one LMP packet to the peer without awaiting an answer.
    pub fn send_lmp_packet(&mut self, packet: LmpPacket)
        ensures
            same_env(old(self), final(self)),
            final(self).cursor == old(self).cursor,
            final(self).outputs@ == old(self).outputs@.push(Output::Lmp(packet)),
    {
        self.outputs.push(Output::Lmp(packet));
    }

    /// Emits one LMP packet, then suspends until the peer's Accepted or Not
    /// Accepted for the same opcode arrives. The next scripted event decides:
    /// anything but a matching Accepted or Not Accepted stalls the machine.
    pub fn send_accepted_lmp_packet(&mut self, packet: LmpPacket) -> (r: SendResult)
        ensures
            same_env(old(self), final(self)),
            final(self).outputs@ == old(self).outputs@.push(Output::Lmp(packet)),
            r == spec_send_accepted(
                old(self).inputs@,
                old(self).cursor as int,
                packet.spec_opcode(),
            ),
            final(self).cursor == if r is Stalled {
                old(self).cursor as int
            } else {
                old(self).cursor + 1
            },
            r !is Stalled ==> {
                &&& old(self).cursor < old(self).inputs@.len()
                &&& match old(self).inputs@[old(self).cursor as int] {
                    Input::Lmp(LmpPacket::Accepted { accepted_opcode, .. }) =>
                        accepted_opcode == packet.spec_opcode(),
                    Input::Lmp(LmpPacket::NotAccepted { not_accepted_opcode, .. }) =>
                        not_accepted_opcode == packet.spec_opcode(),
                    _ => false,
                }
            },
    {
        let opcode = packet.opcode();
        self.outputs.push(Output::Lmp(packet));
        if self.cursor < self.inputs.len() {
            match &self.inputs[self.cursor] {
                Input::Lmp(LmpPacket::Accepted { accepted_opcode, .. }) => {
                    if *accepted_opcode == opcode {
                        self.cursor = self.cursor + 1;
                        return SendResult::Accepted;
                    }
                },
                Input::Lmp(LmpPacket::NotAccepted { not_accepted_opcode, .. }) => {
                    if *not_accepted_opcode == opcode {
                        self.cursor = self.cursor + 1;
                        return SendResult::NotAccepted;
                    }
                },
                _ => {},
            }
        }
        SendResult::Stalled
    }

    /// Models the challenge/response collaborator's outbound direction: the
    /// call is recorded, and the scripted verdict decides its result.
    pub fn send_challenge(&mut self, transaction_id: u8, link_key: Vec<u8>) -> (r: Option<bool>)
        ensures
            same_env(old(self), final(self)),
            final(self).outputs@ == old(self).outputs@.push(
                (Output::SendChallenge { transaction_id, link_key }),
            ),
            r == spec_challenge_result(old(self).inputs@, old(self).cursor as int),
            final(self).cursor == if r is Some {
                old(self).cursor + 1
            } else {
                old(self).cursor as int
            },
    {
        self.outputs.push(Output::SendChallenge { transaction_id, link_key });
        if self.cursor < self.inputs.len() {
            match &self.inputs[self.cursor] {
                Input::ChallengeResult { success } => {
                    let success = *success;
                    self.cursor = self.cursor + 1;
                    return Some(success);
                },
                _ => {},
            }
        }
        None
    }

    /// Models the challenge/response collaborator's inbound direction; it
    /// emits its own traffic and always completes.
    pub fn receive_challenge(&mut self, link_key: Vec<u8>)
        ensures
            same_env(old(self), final(self)),
            final(self).cursor == old(self).cursor,
            final(self).outputs@ == old(self).outputs@.push((Output::ReceiveChallenge { link_key })),
    {
        self.outputs.push(Output::ReceiveChallenge { link_key });
    }
}

/// What the scripted challenge verdict at `cursor` is, if one is next.
pub open spec fn spec_challenge_result(inputs: Seq<Input>, cursor: int) -> Option<bool> {
    match at_input(inputs, cursor) {
        Some(Input::ChallengeResult { success }) => Some(success),
        _ => None,
    }
}

/// The host's IO Capability Request Reply, if one is next.
pub open spec fn spec_recv_iocap_reply(inputs: Seq<Input>, cursor: int) -> Option<
    AuthenticationParams,
> {
    match at_input(inputs, cursor) {
        Some(
            Input::Hci(
                HciCommand::IoCapabilityRequestReply {
                    io_capability,
                    oob_data_present,
                    authentication_requirements,
                },
            ),
        ) => Some(
            AuthenticationParams { io_capability, oob_data_present, authentication_requirements },
        ),
        _ => None,
    }
}

/// The peer's LMP IO Capability Response fields, if one is next.
pub open spec fn spec_recv_iocap_res(inputs: Seq<Input>, cursor: int) -> Option<
    IoCapabilityFields,
> {
    match at_input(inputs, cursor) {
        Some(Input::Lmp(LmpPacket::IoCapabilityRes { fields, .. })) => Some(fields),
        _ => None,
    }
}

/// The announced payload length of the next Encapsulated Header, if one is
/// next.
pub open spec fn spec_recv_encapsulated_header(inputs: Seq<Input>, cursor: int) -> Option<u8> {
    match at_input(inputs, cursor) {
        Some(Input::Lmp(LmpPacket::EncapsulatedHeader { payload_length, .. })) => Some(
            payload_length,
        ),
        _ => None,
    }
}

/// The data of the next Encapsulated Payload, if one of the chunk size is
/// next.
pub open spec fn spec_recv_encapsulated_payload(inputs: Seq<Input>, cursor: int) -> Option<
    Seq<u8>,
> {
    match at_input(inputs, cursor) {
        Some(Input::Lmp(LmpPacket::EncapsulatedPayload { data, .. })) => if data@.len() == 16 {
            Some(data@)
        } else {
            None
        },
        _ => None,
    }
}

/// The commitment value of the next Simple Pairing Confirm, if one is next.
pub open spec fn spec_recv_pairing_confirm(inputs: Seq<Input>, cursor: int) -> Option<Seq<u8>> {
    match at_input(inputs, cursor) {
        Some(Input::Lmp(LmpPacket::SimplePairingConfirm { commitment_value, .. })) => if commitment_value@.len()
            == 16 {
            Some(commitment_value@)
        } else {
            None
        },
        _ => None,
    }
}

/// The nonce of the next Simple Pairing Number, if one is next.
pub open spec fn spec_recv_pairing_number(inputs: Seq<Input>, cursor: int) -> Option<Seq<u8>> {
    match at_input(inputs, cursor) {
        Some(Input::Lmp(LmpPacket::SimplePairingNumber { nonce, .. })) => if nonce@.len() == 16 {
            Some(nonce@)
        } else {
            None
        },
        _ => None,
    }
}

/// Whether a DH-key Check from the peer is next.
pub open spec fn spec_recv_dhkey_check(inputs: Seq<Input>, cursor: int) -> bool {
    match at_input(inputs, cursor) {
        Some(Input::Lmp(LmpPacket::DhkeyCheck { confirmation_value, .. })) => confirmation_value@.len()
            == 16,
        _ => false,
    }
}

/// What stands at the responder's Stage-2 gate, if either expected packet is
/// next.
pub open spec fn spec_recv_stage2_gate(inputs: Seq<Input>, cursor: int) -> Option<Stage2Gate> {
    match at_input(inputs, cursor) {
        Some(Input::Lmp(LmpPacket::NumericComparaisonFailed { .. })) => Some(Stage2Gate::PeerFailed),
        Some(Input::Lmp(LmpPacket::DhkeyCheck { confirmation_value, .. })) => if confirmation_value@.len()
            == 16 {
            Some(Stage2Gate::DhkeyCheck)
        } else {
            None
        },
        _ => None,
    }
}

/// The host's answer to a User Confirmation Request, if one is next; true
/// for the positive reply.
pub open spec fn spec_recv_user_confirmation(inputs: Seq<Input>, cursor: int) -> Option<bool> {
    match at_input(inputs, cursor) {
        Some(Input::Hci(HciCommand::UserConfirmationRequestReply)) => Some(true),
        Some(Input::Hci(HciCommand::UserConfirmationRequestNegativeReply)) => Some(false),
        _ => None,
    }
}

/// The host's next command in a User Passkey round-trip, if one is next.
pub open spec fn spec_recv_user_passkey(inputs: Seq<Input>, cursor: int) -> Option<PasskeyCommand> {
    match at_input(inputs, cursor) {
        Some(Input::Hci(HciCommand::UserPasskeyRequestReply { .. })) => Some(PasskeyCommand::Reply),
        Some(Input::Hci(HciCommand::UserPasskeyRequestNegativeReply)) => Some(
            PasskeyCommand::NegativeReply,
        ),
        Some(Input::Hci(HciCommand::SendKeypressNotification)) => Some(PasskeyCommand::Keypress),
        _ => None,
    }
}

/// The host's answer to a Remote OOB Data Request, if one is next; true for
/// the positive reply.
pub open spec fn spec_recv_remote_oob(inputs: Seq<Input>, cursor: int) -> Option<bool> {
    match at_input(inputs, cursor) {
        Some(Input::Hci(HciCommand::RemoteOobDataRequestReply)) => Some(true),
        Some(Input::Hci(HciCommand::RemoteOobDataRequestNegativeReply)) => Some(false),
        _ => None,
    }
}

impl Context {
    /// Suspends until the host's IO Capability Request Reply arrives.
    pub fn receive_io_capability_request_reply(&mut self) -> (r: Option<AuthenticationParams>)
        ensures
            same_env(old(self), final(self)),
            final(self).outputs == old(self).outputs,
            r == spec_recv_iocap_reply(old(self).inputs@, old(self).cursor as int),
            final(self).cursor == if r is Some {
                old(self).cursor + 1
            } else {
                old(self).cursor as int
            },
    {
        if self.cursor < self.inputs.len() {
            match &self.inputs[self.cursor] {
                Input::Hci(
                    HciCommand::IoCapabilityRequestReply {
                        io_capability,
                        oob_data_present,
                        authentication_requirements,
                    },
                ) => {
                    let params = AuthenticationParams {
                        io_capability: *io_capability,
                        oob_data_present: *oob_data_present,
                        authentication_requirements: *authentication_requirements,
                    };
                    self.cursor = self.cursor + 1;
                    return Some(params);
                },
                _ => {},
            }
        }
        None
    }

    /// Suspends until the peer's LMP IO Capability Response arrives.
    pub fn receive_io_capability_res(&mut self) -> (r: Option<IoCapabilityFields>)
        ensures
            same_env(old(self), final(self)),
            final(self).outputs == old(self).outputs,
            r == spec_recv_iocap_res(old(self).inputs@, old(self).cursor as int),
            final(self).cursor == if r is Some {
                old(self).cursor + 1
            } else {
                old(self).cursor as int
            },
    {
        if self.cursor < self.inputs.len() {
            match &self.inputs[self.cursor] {
                Input::Lmp(LmpPacket::IoCapabilityRes { fields, .. }) => {
                    let fields = *fields;
                    self.cursor = self.cursor + 1;
                    return Some(fields);
                },
                _ => {},
            }
        }
        None
    }

    /// Suspends until the peer's Encapsulated Header arrives; yields its
    /// announced payload length.
    pub fn receive_encapsulated_header(&mut self) -> (r: Option<u8>)
        ensures
            same_env(old(self), final(self)),
            final(self).outputs == old(self).outputs,
            r == spec_recv_encapsulated_header(old(self).inputs@, old(self).cursor as int),
            final(self).cursor == if r is Some {
                old(self).cursor + 1
            } else {
                old(self).cursor as int
            },
    {
        if self.cursor < self.inputs.len() {
            match &self.inputs[self.cursor] {
                Input::Lmp(LmpPacket::EncapsulatedHeader { payload_length, .. }) => {
                    let payload_length: u8 = *payload_length;
                    self.cursor = self.cursor + 1;
                    return Some(payload_length);
                },
                _ => {},
            }
        }
        None
    }

    /// Suspends until the peer's next Encapsulated Payload chunk arrives.
    pub fn receive_encapsulated_payload(&mut self) -> (r: Option<Vec<u8>>)
        ensures
            same_env(old(self), final(self)),
            final(self).outputs == old(self).outputs,
            match r {
                Some(data) => Some(data@) == spec_recv_encapsulated_payload(
                    old(self).inputs@,
                    old(self).cursor as int,
                ),
                None => spec_recv_encapsulated_payload(
                    old(self).inputs@,
                    old(self).cursor as int,
                ) is None,
            },
            final(self).cursor == if r is Some {
                old(self).cursor + 1
            } else {
                old(self).cursor as int
            },
    {
        if self.cursor < self.inputs.len() {
            match &self.inputs[self.cursor] {
                Input::Lmp(LmpPacket::EncapsulatedPayload { data, .. }) => {
                    if data.len() == 16 {
                        let copied = copy_range(data, 0, data.len());
                        proof {
                            assert(copied@ =~= data@);
                        }
                        self.cursor = self.cursor + 1;
                        return Some(copied);
                    }
                },
                _ => {},
            }
        }
        None
    }

    /// Suspends until the peer's Simple Pairing Confirm arrives; yields its
    /// commitment value.
    pub fn receive_simple_pairing_confirm(&mut self) -> (r: Option<Vec<u8>>)
        ensures
            same_env(old(self), final(self)),
            final(self).outputs == old(self).outputs,
            match r {
                Some(commitment) => Some(commitment@) == spec_recv_pairing_confirm(
                    old(self).inputs@,
                    old(self).cursor as int,
                ),
                None => spec_recv_pairing_confirm(
                    old(self).inputs@,
                    old(self).cursor as int,
                ) is None,
            },
            final(self).cursor == if r is Some {
                old(self).cursor + 1
            } else {
                old(self).cursor as int
            },
    {
        if self.cursor < self.inputs.len() {
            match &self.inputs[self.cursor] {
                Input::Lmp(LmpPacket::SimplePairingConfirm { commitment_value, .. }) => {
                    if commitment_value.len() == 16 {
                        let copied = copy_range(commitment_value, 0, commitment_value.len());
                        proof {
                            assert(copied@ =~= commitment_value@);
                        }
                        self.cursor = self.cursor + 1;
                        return Some(copied);
                    }
                },
                _ => {},
            }
        }
        None
    }

    /// Suspends until the peer's Simple Pairing Number arrives.
    pub fn receive_simple_pairing_number(&mut self) -> (r: Option<Vec<u8>>)
        ensures
            same_env(old(self), final(self)),
            final(self).outputs == old(self).outputs,
            match r {
                Some(nonce) => Some(nonce@) == spec_recv_pairing_number(
                    old(self).inputs@,
                    old(self).cursor as int,
                ),
                None => spec_recv_pairing_number(
                    old(self).inputs@,
                    old(self).cursor as int,
                ) is None,
            },
            final(self).cursor == if r is Some {
                old(self).cursor + 1
            } else {
                old(self).cursor as int
            },
    {
        if self.cursor < self.inputs.len() {
            match &self.inputs[self.cursor] {
                Input::Lmp(LmpPacket::SimplePairingNumber { nonce, .. }) => {
                    if nonce.len() == 16 {
                        let copied = copy_range(nonce, 0, nonce.len());
                        proof {
                            assert(copied@ =~= nonce@);
                        }
                        self.cursor = self.cursor + 1;
                        return Some(copied);
                    }
                },
                _ => {},
            }
        }
        None
    }

    /// Suspends until the peer's DH-key Check arrives; its confirmation
    /// value is not inspected.
    pub fn receive_dhkey_check(&mut self) -> (r: bool)
        ensures
            same_env(old(self), final(self)),
            final(self).outputs == old(self).outputs,
            r == spec_recv_dhkey_check(old(self).inputs@, old(self).cursor as int),
            final(self).cursor == if r {
                old(self).cursor + 1
            } else {
                old(self).cursor as int
            },
    {
        if self.cursor < self.inputs.len() {
            match &self.inputs[self.cursor] {
                Input::Lmp(LmpPacket::DhkeyCheck { confirmation_value, .. }) => {
                    if confirmation_value.len() == 16 {
                        self.cursor = self.cursor + 1;
                        return true;
                    }
                },
                _ => {},
            }
        }
        false
    }

    /// Suspends at the responder's Stage-2 gate until either a Numeric
    /// Comparaison Failed or a DH-key Check arrives.
    pub fn receive_stage2_gate(&mut self) -> (r: Option<Stage2Gate>)
        ensures
            same_env(old(self), final(self)),
            final(self).outputs == old(self).outputs,
            r == spec_recv_stage2_gate(old(self).inputs@, old(self).cursor as int),
            final(self).cursor == if r is Some {
                old(self).cursor + 1
            } else {
                old(self).cursor as int
            },
    {
        if self.cursor < self.inputs.len() {
            match &self.inputs[self.cursor] {
                Input::Lmp(LmpPacket::NumericComparaisonFailed { .. }) => {
                    self.cursor = self.cursor + 1;
                    return Some(Stage2Gate::PeerFailed);
                },
                Input::Lmp(LmpPacket::DhkeyCheck { confirmation_value, .. }) => {
                    if confirmation_value.len() == 16 {
                        self.cursor = self.cursor + 1;
                        return Some(Stage2Gate::DhkeyCheck);
                    }
                },
                _ => {},
            }
        }
        None
    }

    /// Suspends until the host answers a User Confirmation Request; true for
    /// the positive reply.
    pub fn receive_user_confirmation(&mut self) -> (r: Option<bool>)
        ensures
            same_env(old(self), final(self)),
            final(self).outputs == old(self).outputs,
            r == spec_recv_user_confirmation(old(self).inputs@, old(self).cursor as int),
            final(self).cursor == if r is Some {
                old(self).cursor + 1
            } else {
                old(self).cursor as int
            },
    {
        if self.cursor < self.inputs.len() {
            match &self.inputs[self.cursor] {
                Input::Hci(HciCommand::UserConfirmationRequestReply) => {
                    self.cursor = self.cursor + 1;
                    return Some(true);
                },
                Input::Hci(HciCommand::UserConfirmationRequestNegativeReply) => {
                    self.cursor = self.cursor + 1;
                    return Some(false);
                },
                _ => {},
            }
        }
        None
    }

    /// Suspends until the host sends one of the three commands a User
    /// Passkey Request admits.
    pub fn receive_user_passkey(&mut self) -> (r: Option<PasskeyCommand>)
        ensures
            same_env(old(self), final(self)),
            final(self).outputs == old(self).outputs,
            r == spec_recv_user_passkey(old(self).inputs@, old(self).cursor as int),
            final(self).cursor == if r is Some {
                old(self).cursor + 1
            } else {
                old(self).cursor as int
            },
    {
        if self.cursor < self.inputs.len() {
            match &self.inputs[self.cursor] {
                Input::Hci(HciCommand::UserPasskeyRequestReply { .. }) => {
                    self.cursor = self.cursor + 1;
                    return Some(PasskeyCommand::Reply);
                },
                Input::Hci(HciCommand::UserPasskeyRequestNegativeReply) => {
                    self.cursor = self.cursor + 1;
                    return Some(PasskeyCommand::NegativeReply);
                },
                Input::Hci(HciCommand::SendKeypressNotification) => {
                    self.cursor = self.cursor + 1;
                    return Some(PasskeyCommand::Keypress);
                },
                _ => {},
            }
        }
        None
    }

    /// Suspends until the host answers a Remote OOB Data Request; true for
    /// the positive reply.
    pub fn receive_remote_oob(&mut self) -> (r: Option<bool>)
        ensures
            same_env(old(self), final(self)),
            final(self).outputs == old(self).outputs,
            r == spec_recv_remote_oob(old(self).inputs@, old(self).cursor as int),
            final(self).cursor == if r is Some {
                old(self).cursor + 1
            } else {
                old(self).cursor as int
            },
    {
        if self.cursor < self.inputs.len() {
            match &self.inputs[self.cursor] {
                Input::Hci(HciCommand::RemoteOobDataRequestReply) => {
                    self.cursor = self.cursor + 1;
                    return Some(true);
                },
                Input::Hci(HciCommand::RemoteOobDataRequestNegativeReply) => {
                    self.cursor = self.cursor + 1;
                    return Some(false);
                },
                _ => {},
            }
        }
        None
    }
}

} // verus!
