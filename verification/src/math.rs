//! The three operations on flat points, and the decoding and encoding that
//! stand between a buffer and the curve library's own point.

use vstd::prelude::*;
use vstd::pervasive::unreached;
use crate::curve::{
    combine, generator_x, generator_y, multiply, parse_uncompressed, point_encoding, point_sum,
    serialize_uncompressed, tweak_product,
};
use crate::bytes::copy_at;
use crate::error::Error;
use crate::keys::{
    generator, is_point, is_scalar, lemma_generator_is_point, opposite, uncompressed, Public,
    Secret, UNCOMPRESSED_MARKER,
};

verus! {

/// What decoding a flat point gives: its uncompressed form where the bytes
/// are a point, `InvalidPublic` where they are not.
pub open spec fn decoded(point: Seq<u8>) -> Result<Seq<u8>, Error> {
    if is_point(point) {
        Ok(uncompressed(point))
    } else {
        Err(Error::InvalidPublic)
    }
}

/// What encoding gives for a point in uncompressed form: the 64 bytes behind
/// the marker.
pub open spec fn encoded(encoding: Seq<u8>) -> Seq<u8> {
    encoding.skip(1)
}

/// What multiplying a flat point by a scalar gives: the flat product, or the
/// reason why there is none. The scalar is looked at first.
pub open spec fn product(point: Seq<u8>, scalar: Seq<u8>) -> Result<Seq<u8>, Error> {
    if !is_scalar(scalar) {
        Err(Error::InvalidSecret)
    } else if !is_point(point) {
        Err(Error::InvalidPublic)
    } else {
        match tweak_product(uncompressed(point), scalar) {
            Some(encoding) => Ok(encoded(encoding)),
            None => Err(Error::ArithmeticError),
        }
    }
}

/// What adding two flat points gives: the flat sum, or the reason why there
/// is none. Two points that mirror each other add up to the point at
/// infinity, which no buffer can hold.
pub open spec fn sum(point: Seq<u8>, other: Seq<u8>) -> Result<Seq<u8>, Error> {
    if !is_point(point) || !is_point(other) {
        Err(Error::InvalidPublic)
    } else if opposite(point, other) {
        Err(Error::ArithmeticError)
    } else {
        Ok(encoded(point_sum(uncompressed(point), uncompressed(other))))
    }
}

/// Multiplies the point in `public` by `secret`, in place.
///
/// Fails with `InvalidSecret` where `secret` is no scalar, else with
/// `InvalidPublic` where `public` holds no point, else with
/// `ArithmeticError` where the curve library reports no product. On failure
/// the buffer is left as it was; on success it holds a point.
pub fn public_mul_secret(public: &mut Public, secret: &Secret) -> (r: Result<(), Error>)
    ensures
        match product(old(public)@, secret@) {
            Ok(point) => r is Ok && final(public)@ == point,
            Err(e) => r == Err::<(), Error>(e) && final(public)@ == old(public)@,
        },
        r is Ok ==> is_point(final(public)@),
{
    let key_secret = match secret.to_secp256k1_secret() {
        Ok(key) => key,
        Err(e) => { return Err(e); },
    };
    let key_public = match to_secp256k1_public(public) {
        Ok(key) => key,
        Err(e) => { return Err(e); },
    };
    match multiply(&key_public, &key_secret) {
        Some(key) => {
            set_public(public, &key);
            Ok(())
        },
        None => Err(Error::ArithmeticError),
    }
}

/// Adds the point in `other` to the point in `public`, in place.
///
/// Fails with `InvalidPublic` where either buffer holds no point, else with
/// `ArithmeticError` where the two points are each other's negation, so that
/// their sum is the point at infinity. On failure the buffer is left as it
/// was; on success it holds a point.
pub fn public_add(public: &mut Public, other: &Public) -> (r: Result<(), Error>)
    ensures
        match sum(old(public)@, other@) {
            Ok(point) => r is Ok && final(public)@ == point,
            Err(e) => r == Err::<(), Error>(e) && final(public)@ == old(public)@,
        },
        r is Ok ==> is_point(final(public)@),
{
    let key_public = match to_secp256k1_public(public) {
        Ok(key) => key,
        Err(e) => { return Err(e); },
    };
    let other_public = match to_secp256k1_public(other) {
        Ok(key) => key,
        Err(e) => { return Err(e); },
    };
    proof {
        assert(uncompressed(public@).skip(1) =~= public@);
        assert(uncompressed(other@).skip(1) =~= other@);
    }
    match combine(&key_public, &other_public) {
        Some(key) => {
            set_public(public, &key);
            Ok(())
        },
        None => Err(Error::ArithmeticError),
    }
}

/// The curve's generator in flat form. The same 64 bytes on every call: the
/// generator's coordinates are on the curve, so parsing them cannot fail.
pub fn generation_point() -> (r: Public)
    ensures
        r@ == generator(),
{
    let mut public_sec_raw = [0u8; 65];
    public_sec_raw[0] = UNCOMPRESSED_MARKER;
    copy_at(&mut public_sec_raw, 1, &generator_x());
    copy_at(&mut public_sec_raw, 33, &generator_y());
    proof {
        lemma_generator_is_point();
        assert(public_sec_raw@.skip(1) =~= generator());
    }
    match parse_uncompressed(&public_sec_raw) {
        Some(key) => {
            let mut public = Public::default();
            set_public(&mut public, &key);
            public
        },
        None => unreached(),
    }
}

/// Decodes a flat point into the curve library's point. Fails with
/// `InvalidPublic` exactly when the bytes are not a point on the curve.
pub fn to_secp256k1_public(public: &Public) -> (r: Result<secp256k1::PublicKey, Error>)
    ensures
        match decoded(public@) {
            Ok(encoding) => r matches Ok(key) && point_encoding(key) == encoding,
            Err(e) => r matches Err(f) && f == e,
        },
{
    let public_data = public.to_uncompressed();
    proof {
        assert(public_data@.skip(1) =~= public@);
    }
    match parse_uncompressed(&public_data) {
        Some(key) => Ok(key),
        None => Err(Error::InvalidPublic),
    }
}

/// Encodes the curve library's point into `public`, which then holds a
/// point.
pub fn set_public(public: &mut Public, key_public: &secp256k1::PublicKey)
    ensures
        final(public)@ == encoded(point_encoding(*key_public)),
        is_point(final(public)@),
{
    let key_public_serialized = serialize_uncompressed(key_public);
    *public = Public::from_uncompressed(&key_public_serialized);
}

} // verus!
