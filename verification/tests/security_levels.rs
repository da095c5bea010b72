use keystore2::security_level::{KEYSTORE, SOFTWARE, STRONGBOX, TRUSTED_ENVIRONMENT};
use keystore2::{SecurityLevel, Uuid};

#[test]
fn level_numbers_are_those_of_the_backend_protocol() {
    assert_eq!(SOFTWARE, 0);
    assert_eq!(TRUSTED_ENVIRONMENT, 1);
    assert_eq!(STRONGBOX, 2);
    assert_eq!(KEYSTORE, 100);
}

#[test]
fn identity_is_the_level_number_in_128_bits() {
    assert_eq!(Uuid::from(SecurityLevel(SOFTWARE)), Uuid(0));
    assert_eq!(Uuid::from(SecurityLevel(TRUSTED_ENVIRONMENT)), Uuid(1));
    assert_eq!(Uuid::from(SecurityLevel(STRONGBOX)), Uuid(2));
    assert_eq!(Uuid::from(SecurityLevel(KEYSTORE)), Uuid(100));
    assert_eq!(Uuid::from(SecurityLevel(i32::MAX)), Uuid(0x7fff_ffff));
}

#[test]
fn identity_of_a_negative_level_is_sign_extended() {
    assert_eq!(Uuid::from(SecurityLevel(-1)), Uuid(u128::MAX));
    assert_eq!(Uuid::from(SecurityLevel(-2)), Uuid(u128::MAX - 1));
    assert_eq!(Uuid::from(SecurityLevel(i32::MIN)), Uuid(u128::MAX - 0x7fff_ffff));
    for code in [-1, -2, -100, i32::MIN, 0, 5, i32::MAX] {
        assert_eq!(Uuid::from(SecurityLevel(code)), Uuid(code as u128));
    }
}

#[test]
fn identity_is_one_to_one() {
    let codes = [i32::MIN, -100, -2, -1, 0, 1, 2, 3, 100, i32::MAX];
    for a in codes {
        for b in codes {
            assert_eq!(
                Uuid::from(SecurityLevel(a)) == Uuid::from(SecurityLevel(b)),
                a == b
            );
        }
    }
}

#[test]
fn into_gives_the_same_identity() {
    let uuid: Uuid = SecurityLevel(STRONGBOX).into();
    assert_eq!(uuid, Uuid(2));
}
