//! Capability values exchanged during pairing, the authentication-method
//! selector, and link-key typing.

use vstd::prelude::*;

verus! {

/// IO capability a host reports in its IO Capability Request Reply.
#[derive(Clone, Copy, PartialEq, Eq, Structural, Debug)]
pub enum IoCapability {
    DisplayOnly,
    DisplayYesNo,
    KeyboardOnly,
    NoInputNoOutput,
}

impl IoCapability {
    /// Wire encoding of the capability, as carried in LMP IO capability frames.
    pub open spec fn spec_to_u8(self) -> u8 {
        match self {
            IoCapability::DisplayOnly => 0,
            IoCapability::DisplayYesNo => 1,
            IoCapability::KeyboardOnly => 2,
            IoCapability::NoInputNoOutput => 3,
        }
    }

    pub open spec fn spec_from_u8(value: u8) -> Option<IoCapability> {
        if value == 0 {
            Some(IoCapability::DisplayOnly)
        } else if value == 1 {
            Some(IoCapability::DisplayYesNo)
        } else if value == 2 {
            Some(IoCapability::KeyboardOnly)
        } else if value == 3 {
            Some(IoCapability::NoInputNoOutput)
        } else {
            None
        }
    }

    pub fn to_u8(self) -> (r: u8)
        ensures
            r == self.spec_to_u8(),
    {
        match self {
            IoCapability::DisplayOnly => 0,
            IoCapability::DisplayYesNo => 1,
            IoCapability::KeyboardOnly => 2,
            IoCapability::NoInputNoOutput => 3,
        }
    }

    pub fn from_u8(value: u8) -> (r: Option<IoCapability>)
        ensures
            r == Self::spec_from_u8(value),
    {
        match value {
            0 => Some(IoCapability::DisplayOnly),
            1 => Some(IoCapability::DisplayYesNo),
            2 => Some(IoCapability::KeyboardOnly),
            3 => Some(IoCapability::NoInputNoOutput),
            _ => None,
        }
    }
}

/// Whether out-of-band authentication data is available on a side.
#[derive(Clone, Copy, PartialEq, Eq, Structural, Debug)]
pub enum OobDataPresent {
    NotPresent,
    P192Present,
    P256Present,
    P192AndP256Present,
}

impl OobDataPresent {
    pub open spec fn spec_to_u8(self) -> u8 {
        match self {
            OobDataPresent::NotPresent => 0,
            OobDataPresent::P192Present => 1,
            OobDataPresent::P256Present => 2,
            OobDataPresent::P192AndP256Present => 3,
        }
    }

    pub open spec fn spec_from_u8(value: u8) -> Option<OobDataPresent> {
        if value == 0 {
            Some(OobDataPresent::NotPresent)
        } else if value == 1 {
            Some(OobDataPresent::P192Present)
        } else if value == 2 {
            Some(OobDataPresent::P256Present)
        } else if value == 3 {
            Some(OobDataPresent::P192AndP256Present)
        } else {
            None
        }
    }

    pub fn to_u8(self) -> (r: u8)
        ensures
            r == self.spec_to_u8(),
    {
        match self {
            OobDataPresent::NotPresent => 0,
            OobDataPresent::P192Present => 1,
            OobDataPresent::P256Present => 2,
            OobDataPresent::P192AndP256Present => 3,
        }
    }

    pub fn from_u8(value: u8) -> (r: Option<OobDataPresent>)
        ensures
            r == Self::spec_from_u8(value),
    {
        match value {
            0 => Some(OobDataPresent::NotPresent),
            1 => Some(OobDataPresent::P192Present),
            2 => Some(OobDataPresent::P256Present),
            3 => Some(OobDataPresent::P192AndP256Present),
            _ => None,
        }
    }
}

/// Bonding level and MITM-protection flag a host asks for.
#[derive(Clone, Copy, PartialEq, Eq, Structural, Debug)]
pub enum AuthenticationRequirements {
    NoBonding,
    NoBondingMitmProtection,
    DedicatedBonding,
    DedicatedBondingMitmProtection,
    GeneralBonding,
    GeneralBondingMitmProtection,
}

impl AuthenticationRequirements {
    pub open spec fn spec_to_u8(self) -> u8 {
        match self {
            AuthenticationRequirements::NoBonding => 0,
            AuthenticationRequirements::NoBondingMitmProtection => 1,
            AuthenticationRequirements::DedicatedBonding => 2,
            AuthenticationRequirements::DedicatedBondingMitmProtection => 3,
            AuthenticationRequirements::GeneralBonding => 4,
            AuthenticationRequirements::GeneralBondingMitmProtection => 5,
        }
    }

    pub open spec fn spec_from_u8(value: u8) -> Option<AuthenticationRequirements> {
        if value == 0 {
            Some(AuthenticationRequirements::NoBonding)
        } else if value == 1 {
            Some(AuthenticationRequirements::NoBondingMitmProtection)
        } else if value == 2 {
            Some(AuthenticationRequirements::DedicatedBonding)
        } else if value == 3 {
            Some(AuthenticationRequirements::DedicatedBondingMitmProtection)
        } else if value == 4 {
            Some(AuthenticationRequirements::GeneralBonding)
        } else if value == 5 {
            Some(AuthenticationRequirements::GeneralBondingMitmProtection)
        } else {
            None
        }
    }

    pub fn to_u8(self) -> (r: u8)
        ensures
            r == self.spec_to_u8(),
    {
        match self {
            AuthenticationRequirements::NoBonding => 0,
            AuthenticationRequirements::NoBondingMitmProtection => 1,
            AuthenticationRequirements::DedicatedBonding => 2,
            AuthenticationRequirements::DedicatedBondingMitmProtection => 3,
            AuthenticationRequirements::GeneralBonding => 4,
            AuthenticationRequirements::GeneralBondingMitmProtection => 5,
        }
    }

    pub fn from_u8(value: u8) -> (r: Option<AuthenticationRequirements>)
        ensures
            r == Self::spec_from_u8(value),
    {
        match value {
            0 => Some(AuthenticationRequirements::NoBonding),
            1 => Some(AuthenticationRequirements::NoBondingMitmProtection),
            2 => Some(AuthenticationRequirements::DedicatedBonding),
            3 => Some(AuthenticationRequirements::DedicatedBondingMitmProtection),
            4 => Some(AuthenticationRequirements::GeneralBonding),
            5 => Some(AuthenticationRequirements::GeneralBondingMitmProtection),
            _ => None,
        }
    }
}

/// True iff the requirements carry the MITM-protection flag.
pub open spec fn spec_has_mitm(requirements: AuthenticationRequirements) -> bool {
    match requirements {
        AuthenticationRequirements::NoBonding
        | AuthenticationRequirements::DedicatedBonding
        | AuthenticationRequirements::GeneralBonding => false,
        AuthenticationRequirements::NoBondingMitmProtection
        | AuthenticationRequirements::DedicatedBondingMitmProtection
        | AuthenticationRequirements::GeneralBondingMitmProtection => true,
    }
}

pub fn has_mitm(requirements: AuthenticationRequirements) -> (r: bool)
    ensures
        r == spec_has_mitm(requirements),
{
    match requirements {
        AuthenticationRequirements::NoBonding
        | AuthenticationRequirements::DedicatedBonding
        | AuthenticationRequirements::GeneralBonding => false,
        AuthenticationRequirements::NoBondingMitmProtection
        | AuthenticationRequirements::DedicatedBondingMitmProtection
        | AuthenticationRequirements::GeneralBondingMitmProtection => true,
    }
}

/// The three fields a host supplies in its IO Capability Request Reply.
#[derive(Clone, Copy, PartialEq, Eq, Structural, Debug)]
pub struct AuthenticationParams {
    pub io_capability: IoCapability,
    pub oob_data_present: OobDataPresent,
    pub authentication_requirements: AuthenticationRequirements,
}

/// The Stage-1 sub-protocol selected from both sides' capabilities.
#[derive(Clone, Copy, PartialEq, Eq, Structural, Debug)]
pub enum AuthenticationMethod {
    OutOfBand,
    NumericComparaisonJustWork,
    NumericComparaisonUserConfirm,
    PasskeyEntry,
}

/// Method selection, first match wins: out-of-band data on either side wins,
/// then no MITM protection on either side, then one keyboard-only side facing
/// a side with some IO, then two yes/no displays, else just-works.
pub open spec fn spec_authentication_method(
    initiator: AuthenticationParams,
    responder: AuthenticationParams,
) -> AuthenticationMethod {
    if initiator.oob_data_present != OobDataPresent::NotPresent
        || responder.oob_data_present != OobDataPresent::NotPresent {
        AuthenticationMethod::OutOfBand
    } else if !spec_has_mitm(initiator.authentication_requirements)
        && !spec_has_mitm(responder.authentication_requirements) {
        AuthenticationMethod::NumericComparaisonJustWork
    } else if (initiator.io_capability == IoCapability::KeyboardOnly
        && responder.io_capability != IoCapability::NoInputNoOutput)
        || (responder.io_capability == IoCapability::KeyboardOnly
            && initiator.io_capability != IoCapability::NoInputNoOutput) {
        AuthenticationMethod::PasskeyEntry
    } else if initiator.io_capability == IoCapability::DisplayYesNo
        && responder.io_capability == IoCapability::DisplayYesNo {
        AuthenticationMethod::NumericComparaisonUserConfirm
    } else {
        AuthenticationMethod::NumericComparaisonJustWork
    }
}

pub fn authentication_method(
    initiator: AuthenticationParams,
    responder: AuthenticationParams,
) -> (r: AuthenticationMethod)
    ensures
        r == spec_authentication_method(initiator, responder),
{
    if initiator.oob_data_present != OobDataPresent::NotPresent
        || responder.oob_data_present != OobDataPresent::NotPresent {
        AuthenticationMethod::OutOfBand
    } else if !has_mitm(initiator.authentication_requirements)
        && !has_mitm(responder.authentication_requirements) {
        AuthenticationMethod::NumericComparaisonJustWork
    } else if (initiator.io_capability == IoCapability::KeyboardOnly
        && responder.io_capability != IoCapability::NoInputNoOutput)
        || (responder.io_capability == IoCapability::KeyboardOnly
            && initiator.io_capability != IoCapability::NoInputNoOutput) {
        AuthenticationMethod::PasskeyEntry
    } else if initiator.io_capability == IoCapability::DisplayYesNo
        && responder.io_capability == IoCapability::DisplayYesNo {
        AuthenticationMethod::NumericComparaisonUserConfirm
    } else {
        AuthenticationMethod::NumericComparaisonJustWork
    }
}

/// Method selection does not depend on which side initiated: swapping the two
/// capability tuples selects the same method.
pub proof fn lemma_authentication_method_symmetric(
    a: AuthenticationParams,
    b: AuthenticationParams,
)
    ensures
        spec_authentication_method(a, b) == spec_authentication_method(b, a),
{
}

/// Link-key type reported to the host in the Link Key Notification.
#[derive(Clone, Copy, PartialEq, Eq, Structural, Debug)]
pub enum KeyType {
    UnauthenticatedP192,
    UnauthenticatedP256,
    AuthenticatedP192,
    AuthenticatedP256,
}

impl KeyType {
    /// Whether the key type claims protection against man-in-the-middle.
    pub open spec fn spec_is_authenticated(self) -> bool {
        match self {
            KeyType::AuthenticatedP192 | KeyType::AuthenticatedP256 => true,
            KeyType::UnauthenticatedP192 | KeyType::UnauthenticatedP256 => false,
        }
    }
}

/// HCI status codes this core emits.
#[derive(Clone, Copy, PartialEq, Eq, Structural, Debug)]
pub enum ErrorCode {
    Success,
    AuthenticationFailure,
}

impl ErrorCode {
    /// Wire value of the status code.
    pub open spec fn spec_to_u8(self) -> u8 {
        match self {
            ErrorCode::Success => 0,
            ErrorCode::AuthenticationFailure => 5,
        }
    }

    pub fn to_u8(self) -> (r: u8)
        ensures
            r == self.spec_to_u8(),
    {
        match self {
            ErrorCode::Success => 0,
            ErrorCode::AuthenticationFailure => 5,
        }
    }
}

/// Why a pairing run ended without a link-key notification.
#[derive(Clone, Copy, PartialEq, Eq, Structural, Debug)]
pub enum PairingError {
    /// The host answered a user-interaction request with a negative reply.
    UserRejected,
    /// A received Simple Pairing Confirm disagreed with the expected
    /// commitment value.
    CommitmentMismatch,
    /// The peer aborted at the Stage-2 gate with Numeric Comparaison Failed.
    PeerAborted,
    /// The peer answered the DH-key check with Not Accepted.
    Stage2Rejected,
    /// The mutual challenge/response step reported failure.
    AuthenticationFailed,
    /// A peer IO capability frame carried a value outside its enumeration.
    InvalidPeerParameters,
    /// An Encapsulated Header announced a payload length that is neither a
    /// P-192 nor a P-256 public-key size.
    InvalidKeySize,
    /// The script ended, or offered a differently-shaped event, where the
    /// machine awaits one; the machine stays suspended and emits nothing
    /// further.
    Stalled,
}

} // verus!
