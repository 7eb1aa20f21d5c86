use bitcoin::secp256k1::{PublicKey, Secp256k1};
use bridge_core::keys::{calculate_deposit_secret_key, KeyError, SecretKey};

fn key_of(last: u8, fill: u8) -> SecretKey {
    let mut b = [fill; 32];
    b[31] = last;
    SecretKey::from_slice(&b).unwrap()
}

fn outside_key(k: &SecretKey) -> bitcoin::secp256k1::SecretKey {
    bitcoin::secp256k1::SecretKey::from_slice(&k.secret_bytes()).unwrap()
}

#[test]
fn test_calculate_deposit_secret_key() {
    let secp = Secp256k1::new();

    // c
    let secret_key = key_of(0x5a, 0x17);

    // v
    let vault_secret_key = key_of(0x33, 0x42);
    // V
    let vault_public_key = PublicKey::from_secret_key(&secp, &outside_key(&vault_secret_key));

    // D = V * c
    let mut deposit_public_key = vault_public_key;
    deposit_public_key.mul_assign(&secp, &secret_key.secret_bytes()[..]).unwrap();

    // d = v * c
    let deposit_secret_key = calculate_deposit_secret_key(vault_secret_key, secret_key).unwrap();

    assert_eq!(
        deposit_public_key,
        PublicKey::from_secret_key(&secp, &outside_key(&deposit_secret_key))
    );
}

#[test]
fn deposit_key_of_small_scalars_is_their_product() {
    let d = calculate_deposit_secret_key(key_of(2, 0), key_of(3, 0)).unwrap();
    let mut expected = [0u8; 32];
    expected[31] = 6;
    assert_eq!(d.secret_bytes(), expected);
}

#[test]
fn deposit_key_wraps_modulo_the_order() {
    // n - 1 times 2 is n - 2.
    let order_minus_one: [u8; 32] = [
        0xff, 0xff, 0xff, 0xff, 0xff, 0xff, 0xff, 0xff, 0xff, 0xff, 0xff, 0xff, 0xff, 0xff, 0xff, 0xfe,
        0xba, 0xae, 0xdc, 0xe6, 0xaf, 0x48, 0xa0, 0x3b, 0xbf, 0xd2, 0x5e, 0x8c, 0xd0, 0x36, 0x41, 0x40,
    ];
    let mut order_minus_two = order_minus_one;
    order_minus_two[31] = 0x3f;
    let d = calculate_deposit_secret_key(SecretKey::from_slice(&order_minus_one).unwrap(), key_of(2, 0))
        .unwrap();
    assert_eq!(d.secret_bytes(), order_minus_two);
}

#[test]
fn deposit_key_is_symmetric() {
    assert_eq!(
        calculate_deposit_secret_key(key_of(0x99, 0x01), key_of(0x07, 0x80)).unwrap().secret_bytes(),
        calculate_deposit_secret_key(key_of(0x07, 0x80), key_of(0x99, 0x01)).unwrap().secret_bytes()
    );
}

#[test]
fn invalid_secret_bytes_are_refused() {
    assert!(matches!(SecretKey::from_slice(&[0u8; 32]), Err(KeyError::InvalidSecretKey)));
    assert!(matches!(SecretKey::from_slice(&[1u8; 31]), Err(KeyError::InvalidSecretKey)));
    let order: [u8; 32] = [
        0xff, 0xff, 0xff, 0xff, 0xff, 0xff, 0xff, 0xff, 0xff, 0xff, 0xff, 0xff, 0xff, 0xff, 0xff, 0xfe,
        0xba, 0xae, 0xdc, 0xe6, 0xaf, 0x48, 0xa0, 0x3b, 0xbf, 0xd2, 0x5e, 0x8c, 0xd0, 0x36, 0x41, 0x41,
    ];
    assert!(matches!(SecretKey::from_slice(&order), Err(KeyError::InvalidSecretKey)));
}
