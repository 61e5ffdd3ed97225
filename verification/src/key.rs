//! Public keys exchanged during pairing. Key material is stubbed with
//! zeroes; only the size and variant of a key matter to the sequencing.

use vstd::prelude::*;
use crate::bytes::{zeros, zero_bytes};
use crate::types::{AuthenticationMethod, KeyType};

verus! {

/// Wire size of a P-192 public key.
pub const P192_PUBLIC_KEY_SIZE: usize = 48;

/// Wire size of a P-256 public key.
pub const P256_PUBLIC_KEY_SIZE: usize = 64;

/// A public key of one of the two supported curves, as a raw byte string.
#[derive(Clone, PartialEq, Eq, Debug)]
pub enum PublicKey {
    P192(Vec<u8>),
    P256(Vec<u8>),
}

impl View for PublicKey {
    type V = Seq<u8>;

    open spec fn view(&self) -> Seq<u8> {
        match self {
            PublicKey::P192(inner) => inner@,
            PublicKey::P256(inner) => inner@,
        }
    }
}

impl PublicKey {
    /// The size the key's variant declares.
    pub open spec fn spec_size(&self) -> usize {
        match self {
            PublicKey::P192(_) => P192_PUBLIC_KEY_SIZE,
            PublicKey::P256(_) => P256_PUBLIC_KEY_SIZE,
        }
    }

    /// A key is well formed when its payload length equals its declared size.
    pub open spec fn wf(&self) -> bool {
        self@.len() == self.spec_size()
    }

    /// Generates a zero-filled key whose variant is selected by `key_size`;
    /// sizes other than the two curve sizes yield nothing.
    pub fn generate(key_size: usize) -> (r: Option<PublicKey>)
        ensures
            key_size == P192_PUBLIC_KEY_SIZE || key_size == P256_PUBLIC_KEY_SIZE
                <==> r is Some,
            match r {
                Some(key) => {
                    &&& key.wf()
                    &&& key@ == zeros(key_size as nat)
                    &&& key.spec_size() == key_size
                },
                None => true,
            },
    {
        if key_size == P192_PUBLIC_KEY_SIZE {
            Some(PublicKey::P192(zero_bytes(P192_PUBLIC_KEY_SIZE)))
        } else if key_size == P256_PUBLIC_KEY_SIZE {
            Some(PublicKey::P256(zero_bytes(P256_PUBLIC_KEY_SIZE)))
        } else {
            None
        }
    }

    /// Builds the key variant that matches `key_size` from received bytes.
    pub fn from_bytes(key_size: usize, data: Vec<u8>) -> (r: Option<PublicKey>)
        requires
            data@.len() == key_size,
        ensures
            key_size == P192_PUBLIC_KEY_SIZE || key_size == P256_PUBLIC_KEY_SIZE
                <==> r is Some,
            match r {
                Some(key) => {
                    &&& key.wf()
                    &&& key@ == data@
                    &&& key.spec_size() == key_size
                },
                None => true,
            },
    {
        if key_size == P192_PUBLIC_KEY_SIZE {
            Some(PublicKey::P192(data))
        } else if key_size == P256_PUBLIC_KEY_SIZE {
            Some(PublicKey::P256(data))
        } else {
            None
        }
    }

    /// The key's payload buffer.
    pub fn payload(&self) -> (r: &Vec<u8>)
        ensures
            r@ == self@,
    {
        match self {
            PublicKey::P192(inner) => inner,
            PublicKey::P256(inner) => inner,
        }
    }

    pub fn as_slice(&self) -> (r: &[u8])
        ensures
            r@ == self@,
    {
        match self {
            PublicKey::P192(inner) => inner.as_slice(),
            PublicKey::P256(inner) => inner.as_slice(),
        }
    }

    pub fn as_mut_slice(&mut self) -> (r: &mut Vec<u8>)
        ensures
            r@ == old(self)@,
            final(self)@ == final(r)@,
            final(self).spec_size() == old(self).spec_size(),
    {
        match self {
            PublicKey::P192(inner) => inner,
            PublicKey::P256(inner) => inner,
        }
    }

    pub fn get_size(&self) -> (r: usize)
        ensures
            r == self.spec_size(),
    {
        match self {
            PublicKey::P192(_) => P192_PUBLIC_KEY_SIZE,
            PublicKey::P256(_) => P256_PUBLIC_KEY_SIZE,
        }
    }
}

/// The key type notified to the host: the curve comes from the peer's public
/// key, and the key counts as authenticated unless the method was the
/// just-works numeric comparison.
pub open spec fn spec_link_key_type(
    auth_method: AuthenticationMethod,
    public_key: &PublicKey,
) -> KeyType {
    match (public_key, auth_method) {
        (
            PublicKey::P256(_),
            AuthenticationMethod::OutOfBand
            | AuthenticationMethod::PasskeyEntry
            | AuthenticationMethod::NumericComparaisonUserConfirm,
        ) => KeyType::AuthenticatedP256,
        (
            PublicKey::P192(_),
            AuthenticationMethod::OutOfBand
            | AuthenticationMethod::PasskeyEntry
            | AuthenticationMethod::NumericComparaisonUserConfirm,
        ) => KeyType::AuthenticatedP192,
        (PublicKey::P256(_), AuthenticationMethod::NumericComparaisonJustWork) =>
            KeyType::UnauthenticatedP256,
        (PublicKey::P192(_), AuthenticationMethod::NumericComparaisonJustWork) =>
            KeyType::UnauthenticatedP192,
    }
}

pub fn link_key_type(auth_method: AuthenticationMethod, public_key: &PublicKey) -> (r: KeyType)
    ensures
        r == spec_link_key_type(auth_method, public_key),
{
    match (public_key, auth_method) {
        (
            PublicKey::P256(_),
            AuthenticationMethod::OutOfBand
            | AuthenticationMethod::PasskeyEntry
            | AuthenticationMethod::NumericComparaisonUserConfirm,
        ) => KeyType::AuthenticatedP256,
        (
            PublicKey::P192(_),
            AuthenticationMethod::OutOfBand
            | AuthenticationMethod::PasskeyEntry
            | AuthenticationMethod::NumericComparaisonUserConfirm,
        ) => KeyType::AuthenticatedP192,
        (PublicKey::P256(_), AuthenticationMethod::NumericComparaisonJustWork) =>
            KeyType::UnauthenticatedP256,
        (PublicKey::P192(_), AuthenticationMethod::NumericComparaisonJustWork) =>
            KeyType::UnauthenticatedP192,
    }
}

/// Link-key typing is total over both key variants and all four methods, its
/// authenticated bit holds exactly when the method was not just-works, and
/// its curve follows the key's variant.
pub proof fn lemma_link_key_type_authentication(
    auth_method: AuthenticationMethod,
    public_key: &PublicKey,
)
    ensures
        spec_link_key_type(auth_method, public_key).spec_is_authenticated()
            == (auth_method != AuthenticationMethod::NumericComparaisonJustWork),
        (spec_link_key_type(auth_method, public_key) == KeyType::AuthenticatedP192
            || spec_link_key_type(auth_method, public_key) == KeyType::UnauthenticatedP192)
            == (public_key is P192),
{
}

} // verus!
