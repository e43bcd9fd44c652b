//! What holds of the operations on every input, proved from their contracts.

use vstd::prelude::*;
use vstd::arithmetic::div_mod::lemma_small_mod;
use crate::error::Error;
use crate::field::{field_prime, lemma_be_value_of_zeros, lemma_negated_y_on_curve, zeros};
use crate::keys::{is_point, is_scalar, opposite, uncompressed, x_coordinate, y_coordinate};
use crate::math::{decoded, encoded, product, sum};

verus! {

/// Decoding a point, encoding it and decoding it again gives what decoding
/// it once gave.
pub proof fn decoding_survives_a_round_trip(point: Seq<u8>)
    requires
        is_point(point),
    ensures
        decoded(point) is Ok,
        encoded(decoded(point)->Ok_0) == point,
        decoded(encoded(decoded(point)->Ok_0)) == decoded(point),
{
    assert(encoded(uncompressed(point)) =~= point);
}

/// Whether `image` is the flat point `point` mirrored across the X axis: the
/// same X, and for Y the field prime minus `point`'s Y (zero stays zero).
pub open spec fn mirrors(point: Seq<u8>, image: Seq<u8>) -> bool {
    &&& image.len() == 64
    &&& image.subrange(0, 32) == point.subrange(0, 32)
    &&& y_coordinate(image) == (field_prime() - y_coordinate(point)) % (field_prime() as int)
}

/// The mirror image of a point is a point, and adding the two, in either
/// order, fails with `ArithmeticError`.
pub proof fn adding_the_mirror_image_fails(point: Seq<u8>, image: Seq<u8>)
    requires
        is_point(point),
        mirrors(point, image),
    ensures
        is_point(image),
        sum(point, image) == Err::<Seq<u8>, Error>(Error::ArithmeticError),
        sum(image, point) == Err::<Seq<u8>, Error>(Error::ArithmeticError),
{
    let p = field_prime();
    let y = y_coordinate(point);
    lemma_negated_y_on_curve(x_coordinate(point), y);
    if y != 0 {
        lemma_small_mod((p - y) as nat, p);
    }
    assert(opposite(point, image));
    assert(opposite(image, point));
}

/// The buffer of 64 zero bytes is no point: decoding it fails with
/// `InvalidPublic`, and so does adding it to anything, adding anything to it,
/// and multiplying it by a scalar.
pub proof fn all_zero_point_is_rejected(other: Seq<u8>, scalar: Seq<u8>)
    ensures
        decoded(zeros(64)) == Err::<Seq<u8>, Error>(Error::InvalidPublic),
        sum(zeros(64), other) == Err::<Seq<u8>, Error>(Error::InvalidPublic),
        sum(other, zeros(64)) == Err::<Seq<u8>, Error>(Error::InvalidPublic),
        is_scalar(scalar) ==> product(zeros(64), scalar) == Err::<Seq<u8>, Error>(
            Error::InvalidPublic,
        ),
{
    lemma_be_value_of_zeros(zeros(64).subrange(0, 32));
    lemma_be_value_of_zeros(zeros(64).subrange(32, 64));
    assert(0nat % field_prime() != 7nat % field_prime());
}

/// The buffer of 32 zero bytes is no scalar: multiplying any buffer by it
/// fails with `InvalidSecret`.
pub proof fn all_zero_scalar_is_rejected(point: Seq<u8>)
    ensures
        product(point, zeros(32)) == Err::<Seq<u8>, Error>(Error::InvalidSecret),
{
    lemma_be_value_of_zeros(zeros(32));
}

} // verus!
