//! The calls into the `secp256k1` crate. Nothing in this file is proved: each
//! function's contract states what the crate's documentation and source show
//! of the call it makes, and the verifier takes it on trust.
//!
//! The crate's own point and scalar are opaque here. A point is spoken of by
//! the 65 bytes it serializes to, a scalar by its 32 bytes. The crate keeps
//! the curve context to itself; no call here takes or changes one.

use vstd::prelude::*;
use crate::field::{generator_x_bytes, generator_y_bytes};
use crate::keys::{is_point, is_scalar, opposite, UNCOMPRESSED_MARKER};

verus! {

#[verifier::external_type_specification]
#[verifier::external_body]
pub struct ExPublicKey(secp256k1::PublicKey);

#[verifier::external_type_specification]
#[verifier::external_body]
pub struct ExSecretKey(secp256k1::SecretKey);

/// What `PublicKey::serialize_uncompressed` returns for a key: 65 bytes.
pub uninterp spec fn point_encoding(key: secp256k1::PublicKey) -> Seq<u8>;

/// What `SecretKey::to_secret_bytes` returns for a key: the 32 bytes it was
/// made from.
pub uninterp spec fn secret_scalar(key: secp256k1::SecretKey) -> Seq<u8>;

/// What `PublicKey::mul_tweak` makes of a point and a scalar, both by their
/// bytes: the encoding of the product, or `None` where the call fails.
pub uninterp spec fn tweak_product(point: Seq<u8>, scalar: Seq<u8>) -> Option<Seq<u8>>;

/// The encoding of the point that `PublicKey::combine` returns for two points,
/// both by their encodings, where it returns one.
pub uninterp spec fn point_sum(a: Seq<u8>, b: Seq<u8>) -> Seq<u8>;

/// `PublicKey::from_slice` on 65 bytes that open with the uncompressed
/// marker. The call succeeds exactly when the 64 bytes behind the marker are
/// two coordinates below the field prime that satisfy the curve equation
/// (the C library's `eckey_pubkey_parse` reads both with a limit and then
/// checks `y^2 = x^3 + 7`), and the key it returns serializes back to the
/// bytes it was parsed from.
#[verifier::external_body]
pub(crate) fn parse_uncompressed(data: &[u8; 65]) -> (r: Option<secp256k1::PublicKey>)
    requires
        data@[0] == UNCOMPRESSED_MARKER,
    ensures
        r is Some <==> is_point(data@.skip(1)),
        r matches Some(key) ==> point_encoding(key) == data@,
{
    secp256k1::PublicKey::from_slice(data).ok()
}

/// `PublicKey::serialize_uncompressed`: the 65 bytes that stand for the key.
/// A key holds a parsed and valid point, so they are the marker and then the
/// coordinates of a point on the curve.
#[verifier::external_body]
pub(crate) fn serialize_uncompressed(key: &secp256k1::PublicKey) -> (r: [u8; 65])
    ensures
        r@ == point_encoding(*key),
        r@[0] == UNCOMPRESSED_MARKER,
        is_point(r@.skip(1)),
{
    key.serialize_uncompressed()
}

/// `SecretKey::from_secret_bytes`. The call succeeds exactly when the bytes,
/// read as a big-endian number, are not zero and below the group order (the
/// C library's `ec_seckey_verify`); the key it returns holds those bytes.
#[verifier::external_body]
pub(crate) fn parse_scalar(data: [u8; 32]) -> (r: Option<secp256k1::SecretKey>)
    ensures
        r is Some <==> is_scalar(data@),
        r matches Some(key) ==> secret_scalar(key) == data@,
{
    secp256k1::SecretKey::from_secret_bytes(data).ok()
}

/// `PublicKey::mul_tweak` with the secret key as the tweak. Whether the call
/// succeeds, and the point it returns, depend on the point and the scalar
/// alone.
#[verifier::external_body]
pub(crate) fn multiply(key: &secp256k1::PublicKey, scalar: &secp256k1::SecretKey) -> (r: Option<
    secp256k1::PublicKey,
>)
    ensures
        match r {
            Some(product) => tweak_product(point_encoding(*key), secret_scalar(*scalar)) == Some(
                point_encoding(product),
            ),
            None => tweak_product(point_encoding(*key), secret_scalar(*scalar)) is None,
        },
{
    key.mul_tweak(&secp256k1::Scalar::from(*scalar)).ok()
}

/// `PublicKey::combine`. The call fails exactly when the sum would be the
/// point at infinity, that is when one point is the negation of the other:
/// the same X, and Y coordinates that add up to zero in the field. Otherwise
/// the point it returns depends on the two points alone.
#[verifier::external_body]
pub(crate) fn combine(a: &secp256k1::PublicKey, b: &secp256k1::PublicKey) -> (r: Option<
    secp256k1::PublicKey,
>)
    ensures
        r is None <==> opposite(point_encoding(*a).skip(1), point_encoding(*b).skip(1)),
        r matches Some(sum) ==> point_encoding(sum) == point_sum(
            point_encoding(*a),
            point_encoding(*b),
        ),
{
    a.combine(b).ok()
}

/// The constant `GENERATOR_X`: the X coordinate of the curve's generator.
#[verifier::external_body]
pub(crate) fn generator_x() -> (r: [u8; 32])
    ensures
        r@ == generator_x_bytes(),
{
    secp256k1::constants::GENERATOR_X
}

/// The constant `GENERATOR_Y`: the Y coordinate of the curve's generator.
#[verifier::external_body]
pub(crate) fn generator_y() -> (r: [u8; 32])
    ensures
        r@ == generator_y_bytes(),
{
    secp256k1::constants::GENERATOR_Y
}

} // verus!
