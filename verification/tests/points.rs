use ethkey::error::Error;
use ethkey::keys::{Public, Secret};
use ethkey::math::{
    generation_point, public_add, public_mul_secret, set_public, to_secp256k1_public,
};

const GENERATOR: [u8; 64] = [
    0x79, 0xbe, 0x66, 0x7e, 0xf9, 0xdc, 0xbb, 0xac, 0x55, 0xa0, 0x62, 0x95, 0xce, 0x87, 0x0b, 0x07,
    0x02, 0x9b, 0xfc, 0xdb, 0x2d, 0xce, 0x28, 0xd9, 0x59, 0xf2, 0x81, 0x5b, 0x16, 0xf8, 0x17, 0x98,
    0x48, 0x3a, 0xda, 0x77, 0x26, 0xa3, 0xc4, 0x65, 0x5d, 0xa4, 0xfb, 0xfc, 0x0e, 0x11, 0x08, 0xa8,
    0xfd, 0x17, 0xb4, 0x48, 0xa6, 0x85, 0x54, 0x19, 0x9c, 0x47, 0xd0, 0x8f, 0xfb, 0x10, 0xd4, 0xb8,
];

const TWICE_GENERATOR: [u8; 64] = [
    0xc6, 0x04, 0x7f, 0x94, 0x41, 0xed, 0x7d, 0x6d, 0x30, 0x45, 0x40, 0x6e, 0x95, 0xc0, 0x7c, 0xd8,
    0x5c, 0x77, 0x8e, 0x4b, 0x8c, 0xef, 0x3c, 0xa7, 0xab, 0xac, 0x09, 0xb9, 0x5c, 0x70, 0x9e, 0xe5,
    0x1a, 0xe1, 0x68, 0xfe, 0xa6, 0x3d, 0xc3, 0x39, 0xa3, 0xc5, 0x84, 0x19, 0x46, 0x6c, 0xea, 0xee,
    0xf7, 0xf6, 0x32, 0x65, 0x32, 0x66, 0xd0, 0xe1, 0x23, 0x64, 0x31, 0xa9, 0x50, 0xcf, 0xe5, 0x2a,
];

const THRICE_GENERATOR: [u8; 64] = [
    0xf9, 0x30, 0x8a, 0x01, 0x92, 0x58, 0xc3, 0x10, 0x49, 0x34, 0x4f, 0x85, 0xf8, 0x9d, 0x52, 0x29,
    0xb5, 0x31, 0xc8, 0x45, 0x83, 0x6f, 0x99, 0xb0, 0x86, 0x01, 0xf1, 0x13, 0xbc, 0xe0, 0x36, 0xf9,
    0x38, 0x8f, 0x7b, 0x0f, 0x63, 0x2d, 0xe8, 0x14, 0x0f, 0xe3, 0x37, 0xe6, 0x2a, 0x37, 0xf3, 0x56,
    0x65, 0x00, 0xa9, 0x99, 0x34, 0xc2, 0x23, 0x1b, 0x6c, 0xb9, 0xfd, 0x75, 0x84, 0xb8, 0xe6, 0x72,
];

const FIELD_PRIME: [u8; 32] = [
    0xff, 0xff, 0xff, 0xff, 0xff, 0xff, 0xff, 0xff, 0xff, 0xff, 0xff, 0xff, 0xff, 0xff, 0xff, 0xff,
    0xff, 0xff, 0xff, 0xff, 0xff, 0xff, 0xff, 0xff, 0xff, 0xff, 0xff, 0xfe, 0xff, 0xff, 0xfc, 0x2f,
];

const GROUP_ORDER: [u8; 32] = [
    0xff, 0xff, 0xff, 0xff, 0xff, 0xff, 0xff, 0xff, 0xff, 0xff, 0xff, 0xff, 0xff, 0xff, 0xff, 0xfe,
    0xba, 0xae, 0xdc, 0xe6, 0xaf, 0x48, 0xa0, 0x3b, 0xbf, 0xd2, 0x5e, 0x8c, 0xd0, 0x36, 0x41, 0x41,
];

fn scalar(value: u8) -> Secret {
    let mut bytes = [0u8; 32];
    bytes[31] = value;
    Secret(bytes)
}

/// `a - b` on 32-byte big-endian numbers, for `a >= b`.
fn minus(a: &[u8; 32], b: &[u8; 32]) -> [u8; 32] {
    let mut out = [0u8; 32];
    let mut borrow = 0i16;
    for i in (0..32).rev() {
        let mut d = a[i] as i16 - b[i] as i16 - borrow;
        if d < 0 {
            d += 256;
            borrow = 1;
        } else {
            borrow = 0;
        }
        out[i] = d as u8;
    }
    assert_eq!(borrow, 0);
    out
}

/// The point with the same X and with Y replaced by the field prime minus Y.
fn mirrored(point: &Public) -> Public {
    let mut y = [0u8; 32];
    y.copy_from_slice(&point.0[32..64]);
    let mut out = point.0;
    out[32..64].copy_from_slice(&minus(&FIELD_PRIME, &y));
    Public(out)
}

#[test]
fn generation_point_is_the_generator() {
    assert_eq!(generation_point(), Public(GENERATOR));
}

#[test]
fn generation_point_is_the_same_on_every_call() {
    let first = generation_point();
    let second = generation_point();
    assert_eq!(first.0, second.0);
}

#[test]
fn multiplying_by_one_keeps_the_point() {
    let mut point = generation_point();
    assert_eq!(public_mul_secret(&mut point, &scalar(1)), Ok(()));
    assert_eq!(point, Public(GENERATOR));
}

#[test]
fn multiplying_the_generator_by_two_and_three() {
    let mut point = generation_point();
    assert_eq!(public_mul_secret(&mut point, &scalar(2)), Ok(()));
    assert_eq!(point, Public(TWICE_GENERATOR));
    let mut point = generation_point();
    assert_eq!(public_mul_secret(&mut point, &scalar(3)), Ok(()));
    assert_eq!(point, Public(THRICE_GENERATOR));
}

#[test]
fn adding_the_generator_to_itself_doubles_it() {
    let mut added = generation_point();
    assert_eq!(public_add(&mut added, &generation_point()), Ok(()));
    let mut doubled = generation_point();
    assert_eq!(public_mul_secret(&mut doubled, &scalar(2)), Ok(()));
    assert_eq!(added, doubled);
    assert_eq!(added, Public(TWICE_GENERATOR));
}

#[test]
fn adding_two_different_points() {
    let mut point = Public(TWICE_GENERATOR);
    assert_eq!(public_add(&mut point, &generation_point()), Ok(()));
    assert_eq!(point, Public(THRICE_GENERATOR));
}

#[test]
fn multiplying_twice_is_multiplying_by_the_product() {
    for (k1, k2) in [(2u8, 3u8), (3, 2), (5, 7), (1, 11), (15, 17)] {
        let mut stepwise = generation_point();
        assert_eq!(public_mul_secret(&mut stepwise, &scalar(k1)), Ok(()));
        assert_eq!(public_mul_secret(&mut stepwise, &scalar(k2)), Ok(()));
        let mut at_once = generation_point();
        assert_eq!(public_mul_secret(&mut at_once, &scalar(k1 * k2)), Ok(()));
        assert_eq!(stepwise, at_once);
    }
}

#[test]
fn multiplying_twice_wraps_at_the_group_order() {
    // (n - 1) * (n - 1) = 1 modulo the group order n.
    let minus_one = Secret(minus(&GROUP_ORDER, &scalar(1).0));
    let mut point = Public(THRICE_GENERATOR);
    assert_eq!(public_mul_secret(&mut point, &minus_one), Ok(()));
    assert_eq!(point, mirrored(&Public(THRICE_GENERATOR)));
    assert_eq!(public_mul_secret(&mut point, &minus_one), Ok(()));
    assert_eq!(point, Public(THRICE_GENERATOR));
}

#[test]
fn all_zero_point_is_invalid() {
    let mut point = Public([0u8; 64]);
    assert_eq!(public_add(&mut point, &generation_point()), Err(Error::InvalidPublic));
    assert_eq!(point, Public([0u8; 64]));
    assert_eq!(public_mul_secret(&mut point, &scalar(1)), Err(Error::InvalidPublic));
    assert_eq!(point, Public([0u8; 64]));
    assert_eq!(to_secp256k1_public(&point), Err(Error::InvalidPublic));
    assert_eq!(to_secp256k1_public(&Public::default()), Err(Error::InvalidPublic));
}

#[test]
fn all_zero_other_point_is_invalid() {
    let mut point = generation_point();
    assert_eq!(public_add(&mut point, &Public([0u8; 64])), Err(Error::InvalidPublic));
    assert_eq!(point, Public(GENERATOR));
}

#[test]
fn point_off_the_curve_is_invalid() {
    let mut bytes = GENERATOR;
    bytes[63] ^= 1;
    let mut point = Public(bytes);
    assert_eq!(public_add(&mut point, &generation_point()), Err(Error::InvalidPublic));
    assert_eq!(point, Public(bytes));
    assert_eq!(public_mul_secret(&mut point, &scalar(2)), Err(Error::InvalidPublic));
    assert_eq!(point, Public(bytes));
}

#[test]
fn coordinate_not_below_the_field_prime_is_invalid() {
    let mut bytes = GENERATOR;
    bytes[0..32].copy_from_slice(&FIELD_PRIME);
    assert_eq!(to_secp256k1_public(&Public(bytes)), Err(Error::InvalidPublic));
    let mut bytes = GENERATOR;
    bytes[32..64].copy_from_slice(&[0xff; 32]);
    assert_eq!(to_secp256k1_public(&Public(bytes)), Err(Error::InvalidPublic));
}

#[test]
fn all_zero_scalar_is_invalid() {
    let mut point = generation_point();
    assert_eq!(public_mul_secret(&mut point, &Secret([0u8; 32])), Err(Error::InvalidSecret));
    assert_eq!(point, Public(GENERATOR));
    assert!(matches!(Secret([0u8; 32]).to_secp256k1_secret(), Err(Error::InvalidSecret)));
}

#[test]
fn scalar_not_below_the_group_order_is_invalid() {
    let mut point = generation_point();
    assert_eq!(public_mul_secret(&mut point, &Secret(GROUP_ORDER)), Err(Error::InvalidSecret));
    assert_eq!(point, Public(GENERATOR));
    assert_eq!(public_mul_secret(&mut point, &Secret([0xff; 32])), Err(Error::InvalidSecret));
    assert_eq!(point, Public(GENERATOR));
}

#[test]
fn largest_scalar_mirrors_the_point() {
    let largest = Secret(minus(&GROUP_ORDER, &scalar(1).0));
    let mut point = generation_point();
    assert_eq!(public_mul_secret(&mut point, &largest), Ok(()));
    assert_eq!(point, mirrored(&Public(GENERATOR)));
}

#[test]
fn invalid_scalar_is_reported_before_invalid_point() {
    let mut point = Public([0u8; 64]);
    assert_eq!(public_mul_secret(&mut point, &Secret([0u8; 32])), Err(Error::InvalidSecret));
    assert_eq!(point, Public([0u8; 64]));
}

#[test]
fn adding_the_mirrored_point_is_an_arithmetic_error() {
    for start in [GENERATOR, TWICE_GENERATOR, THRICE_GENERATOR] {
        let mut point = Public(start);
        let other = mirrored(&point);
        assert!(to_secp256k1_public(&other).is_ok());
        assert_eq!(public_add(&mut point, &other), Err(Error::ArithmeticError));
        assert_eq!(point, Public(start));
        let mut point = other;
        assert_eq!(public_add(&mut point, &Public(start)), Err(Error::ArithmeticError));
        assert_eq!(point, other);
    }
}

#[test]
fn subtracting_y_from_the_group_order_leaves_the_curve() {
    let mut y = [0u8; 32];
    y.copy_from_slice(&GENERATOR[32..64]);
    let mut bytes = GENERATOR;
    bytes[32..64].copy_from_slice(&minus(&GROUP_ORDER, &y));
    let mut point = generation_point();
    assert_eq!(public_add(&mut point, &Public(bytes)), Err(Error::InvalidPublic));
    assert_eq!(point, Public(GENERATOR));
}

#[test]
fn mirrored_generator_has_the_known_coordinates() {
    let expected_y: [u8; 32] = [
        0xb7, 0xc5, 0x25, 0x88, 0xd9, 0x5c, 0x3b, 0x9a, 0xa2, 0x5b, 0x04, 0x03, 0xf1, 0xee, 0xf7,
        0x57, 0x02, 0xe8, 0x4b, 0xb7, 0x59, 0x7a, 0xab, 0xe6, 0x63, 0xb8, 0x2f, 0x6f, 0x04, 0xef,
        0x27, 0x77,
    ];
    let mirror = mirrored(&Public(GENERATOR));
    assert_eq!(mirror.0[0..32], GENERATOR[0..32]);
    assert_eq!(mirror.0[32..64], expected_y);
}

#[test]
fn decoding_and_encoding_give_the_bytes_back() {
    for start in [GENERATOR, TWICE_GENERATOR, THRICE_GENERATOR] {
        let key = to_secp256k1_public(&Public(start)).unwrap();
        let mut again = Public::default();
        set_public(&mut again, &key);
        assert_eq!(again, Public(start));
        assert_eq!(to_secp256k1_public(&again), Ok(key));
    }
}

#[test]
fn decoded_point_is_the_library_point_of_the_same_coordinates() {
    let mut data = [4u8; 65];
    data[1..65].copy_from_slice(&TWICE_GENERATOR);
    let expected = secp256k1::PublicKey::from_slice(&data).unwrap();
    assert_eq!(to_secp256k1_public(&Public(TWICE_GENERATOR)), Ok(expected));
    assert_eq!(expected.serialize_uncompressed(), data);
}

#[test]
fn set_public_overwrites_the_whole_buffer() {
    let key = to_secp256k1_public(&Public(THRICE_GENERATOR)).unwrap();
    let mut point = Public([0xaa; 64]);
    set_public(&mut point, &key);
    assert_eq!(point, Public(THRICE_GENERATOR));
}

#[test]
fn decoded_scalar_holds_the_same_bytes() {
    let mut bytes = [0x5au8; 32];
    bytes[0] = 0x01;
    let key = Secret(bytes).to_secp256k1_secret();
    assert!(matches!(key, Ok(k) if k.to_secret_bytes() == bytes));
}
