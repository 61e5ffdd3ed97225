//! Unit tests for the method selector, link-key typing, wire conversions
//! and public keys.

use lmp::key::{PublicKey, link_key_type, P192_PUBLIC_KEY_SIZE, P256_PUBLIC_KEY_SIZE};
use lmp::types::{
    authentication_method, has_mitm, AuthenticationMethod, AuthenticationParams,
    AuthenticationRequirements, ErrorCode, IoCapability, KeyType, OobDataPresent,
};

fn params(
    io_capability: IoCapability,
    oob_data_present: OobDataPresent,
    authentication_requirements: AuthenticationRequirements,
) -> AuthenticationParams {
    AuthenticationParams { io_capability, oob_data_present, authentication_requirements }
}

fn all_params() -> Vec<AuthenticationParams> {
    let ios = [
        IoCapability::DisplayOnly,
        IoCapability::DisplayYesNo,
        IoCapability::KeyboardOnly,
        IoCapability::NoInputNoOutput,
    ];
    let oobs = [
        OobDataPresent::NotPresent,
        OobDataPresent::P192Present,
        OobDataPresent::P256Present,
        OobDataPresent::P192AndP256Present,
    ];
    let auths = [
        AuthenticationRequirements::NoBonding,
        AuthenticationRequirements::NoBondingMitmProtection,
        AuthenticationRequirements::DedicatedBonding,
        AuthenticationRequirements::DedicatedBondingMitmProtection,
        AuthenticationRequirements::GeneralBonding,
        AuthenticationRequirements::GeneralBondingMitmProtection,
    ];
    let mut out = Vec::new();
    for io in ios {
        for oob in oobs {
            for auth in auths {
                out.push(params(io, oob, auth));
            }
        }
    }
    out
}

#[test]
fn method_oob_wins() {
    let a = params(
        IoCapability::DisplayYesNo,
        OobDataPresent::P192Present,
        AuthenticationRequirements::GeneralBondingMitmProtection,
    );
    let b = params(
        IoCapability::DisplayYesNo,
        OobDataPresent::NotPresent,
        AuthenticationRequirements::GeneralBondingMitmProtection,
    );
    assert_eq!(authentication_method(a, b), AuthenticationMethod::OutOfBand);
    assert_eq!(authentication_method(b, a), AuthenticationMethod::OutOfBand);
}

#[test]
fn method_no_mitm_is_just_works() {
    let a = params(
        IoCapability::DisplayYesNo,
        OobDataPresent::NotPresent,
        AuthenticationRequirements::GeneralBonding,
    );
    let b = params(
        IoCapability::DisplayYesNo,
        OobDataPresent::NotPresent,
        AuthenticationRequirements::NoBonding,
    );
    assert_eq!(
        authentication_method(a, b),
        AuthenticationMethod::NumericComparaisonJustWork
    );
}

#[test]
fn method_keyboard_forces_passkey() {
    let a = params(
        IoCapability::KeyboardOnly,
        OobDataPresent::NotPresent,
        AuthenticationRequirements::GeneralBondingMitmProtection,
    );
    let b = params(
        IoCapability::DisplayOnly,
        OobDataPresent::NotPresent,
        AuthenticationRequirements::GeneralBondingMitmProtection,
    );
    assert_eq!(authentication_method(a, b), AuthenticationMethod::PasskeyEntry);
    let c = params(
        IoCapability::NoInputNoOutput,
        OobDataPresent::NotPresent,
        AuthenticationRequirements::GeneralBondingMitmProtection,
    );
    assert_eq!(
        authentication_method(a, c),
        AuthenticationMethod::NumericComparaisonJustWork
    );
}

#[test]
fn method_two_displays_confirm() {
    let a = params(
        IoCapability::DisplayYesNo,
        OobDataPresent::NotPresent,
        AuthenticationRequirements::DedicatedBondingMitmProtection,
    );
    assert_eq!(
        authentication_method(a, a),
        AuthenticationMethod::NumericComparaisonUserConfirm
    );
    let b = params(
        IoCapability::DisplayOnly,
        OobDataPresent::NotPresent,
        AuthenticationRequirements::DedicatedBondingMitmProtection,
    );
    assert_eq!(
        authentication_method(a, b),
        AuthenticationMethod::NumericComparaisonJustWork
    );
}

#[test]
fn method_is_symmetric_for_all_pairs() {
    let all = all_params();
    for a in &all {
        for b in &all {
            assert_eq!(authentication_method(*a, *b), authentication_method(*b, *a));
        }
    }
}

#[test]
fn link_key_type_all_combinations() {
    let p192 = PublicKey::generate(P192_PUBLIC_KEY_SIZE).unwrap();
    let p256 = PublicKey::generate(P256_PUBLIC_KEY_SIZE).unwrap();
    assert_eq!(
        link_key_type(AuthenticationMethod::OutOfBand, &p192),
        KeyType::AuthenticatedP192
    );
    assert_eq!(
        link_key_type(AuthenticationMethod::PasskeyEntry, &p192),
        KeyType::AuthenticatedP192
    );
    assert_eq!(
        link_key_type(AuthenticationMethod::NumericComparaisonUserConfirm, &p192),
        KeyType::AuthenticatedP192
    );
    assert_eq!(
        link_key_type(AuthenticationMethod::NumericComparaisonJustWork, &p192),
        KeyType::UnauthenticatedP192
    );
    assert_eq!(
        link_key_type(AuthenticationMethod::OutOfBand, &p256),
        KeyType::AuthenticatedP256
    );
    assert_eq!(
        link_key_type(AuthenticationMethod::PasskeyEntry, &p256),
        KeyType::AuthenticatedP256
    );
    assert_eq!(
        link_key_type(AuthenticationMethod::NumericComparaisonUserConfirm, &p256),
        KeyType::AuthenticatedP256
    );
    assert_eq!(
        link_key_type(AuthenticationMethod::NumericComparaisonJustWork, &p256),
        KeyType::UnauthenticatedP256
    );
}

#[test]
fn mitm_flag_by_variant() {
    assert!(!has_mitm(AuthenticationRequirements::NoBonding));
    assert!(!has_mitm(AuthenticationRequirements::DedicatedBonding));
    assert!(!has_mitm(AuthenticationRequirements::GeneralBonding));
    assert!(has_mitm(AuthenticationRequirements::NoBondingMitmProtection));
    assert!(has_mitm(AuthenticationRequirements::DedicatedBondingMitmProtection));
    assert!(has_mitm(AuthenticationRequirements::GeneralBondingMitmProtection));
}

#[test]
fn wire_conversions_round_trip() {
    for v in 0u8..4 {
        assert_eq!(IoCapability::from_u8(v).unwrap().to_u8(), v);
        assert_eq!(OobDataPresent::from_u8(v).unwrap().to_u8(), v);
    }
    for v in 0u8..6 {
        assert_eq!(AuthenticationRequirements::from_u8(v).unwrap().to_u8(), v);
    }
    assert!(IoCapability::from_u8(4).is_none());
    assert!(OobDataPresent::from_u8(4).is_none());
    assert!(AuthenticationRequirements::from_u8(6).is_none());
    assert_eq!(ErrorCode::Success.to_u8(), 0);
    assert_eq!(ErrorCode::AuthenticationFailure.to_u8(), 5);
}

#[test]
fn public_key_generate_sizes() {
    let p192 = PublicKey::generate(48).unwrap();
    assert_eq!(p192.get_size(), 48);
    assert_eq!(p192.as_slice(), &[0u8; 48][..]);
    let p256 = PublicKey::generate(64).unwrap();
    assert_eq!(p256.get_size(), 64);
    assert_eq!(p256.as_slice(), &[0u8; 64][..]);
    assert!(PublicKey::generate(0).is_none());
    assert!(PublicKey::generate(47).is_none());
    assert!(PublicKey::generate(65).is_none());
}

#[test]
fn public_key_mutable_payload() {
    let mut key = PublicKey::generate(48).unwrap();
    key.as_mut_slice()[0] = 7;
    assert_eq!(key.as_slice()[0], 7);
    assert_eq!(key.get_size(), 48);
}
