//! The two byte buffers that the operations work on, and what it means for
//! their contents to be a point or a scalar.

use vstd::prelude::*;
use crate::bytes::{bytes_from, copy_at};
use crate::curve::{parse_scalar, secret_scalar};
use crate::error::Error;
use crate::field::{
    be_value, field_prime, generator_x_bytes, generator_y_bytes, group_order,
    lemma_generator_bytes, lemma_generator_on_curve, on_curve, zeros,
};

verus! {

/// The byte that opens the 65-byte uncompressed form of a point.
pub const UNCOMPRESSED_MARKER: u8 = 4;

/// A point in flat form: `X ‖ Y`, each coordinate 32 bytes, big-endian.
#[derive(Clone, Copy, Debug, PartialEq, Eq)]
pub struct Public(pub [u8; 64]);

/// A scalar in flat form: 32 bytes, big-endian.
#[derive(PartialEq, Eq)]
pub struct Secret(pub [u8; 32]);

impl View for Public {
    type V = Seq<u8>;

    open spec fn view(&self) -> Seq<u8> {
        self.0@
    }
}

impl View for Secret {
    type V = Seq<u8>;

    open spec fn view(&self) -> Seq<u8> {
        self.0@
    }
}

/// The X coordinate that a flat point holds.
pub open spec fn x_coordinate(point: Seq<u8>) -> nat {
    be_value(point.subrange(0, 32))
}

/// The Y coordinate that a flat point holds.
pub open spec fn y_coordinate(point: Seq<u8>) -> nat {
    be_value(point.subrange(32, 64))
}

/// Whether 64 bytes are the coordinates of a point on the curve.
pub open spec fn is_point(point: Seq<u8>) -> bool {
    &&& point.len() == 64
    &&& on_curve(x_coordinate(point), y_coordinate(point))
}

/// Whether 32 bytes are a scalar that can multiply a point: not zero, and
/// below the group order.
pub open spec fn is_scalar(scalar: Seq<u8>) -> bool {
    &&& scalar.len() == 32
    &&& 0 < be_value(scalar) < group_order()
}

/// The 65-byte uncompressed form of a flat point: the marker, then the point.
pub open spec fn uncompressed(point: Seq<u8>) -> Seq<u8> {
    seq![UNCOMPRESSED_MARKER] + point
}

/// Whether two flat points are each other's negation, mirrored across the X
/// axis: the same X, and Y coordinates that add up to zero in the field.
pub open spec fn opposite(a: Seq<u8>, b: Seq<u8>) -> bool {
    &&& a.subrange(0, 32) == b.subrange(0, 32)
    &&& (y_coordinate(a) + y_coordinate(b)) % field_prime() == 0
}

/// The curve's generator in flat form.
pub open spec fn generator() -> Seq<u8> {
    generator_x_bytes() + generator_y_bytes()
}

/// The generator is a point on the curve.
pub proof fn lemma_generator_is_point()
    ensures
        is_point(generator()),
{
    lemma_generator_bytes();
    lemma_generator_on_curve();
    assert(generator().subrange(0, 32) =~= generator_x_bytes());
    assert(generator().subrange(32, 64) =~= generator_y_bytes());
}

impl Default for Public {
    /// The buffer of 64 zero bytes, which holds no point.
    fn default() -> (r: Public)
        ensures
            r@ == zeros(64),
    {
        Public([0u8; 64])
    }
}

impl Public {
    /// The 65-byte uncompressed form: the marker byte, then the 64 bytes of
    /// the buffer.
    pub fn to_uncompressed(&self) -> (r: [u8; 65])
        ensures
            r@ == uncompressed(self@),
    {
        let mut data = [UNCOMPRESSED_MARKER; 65];
        copy_at(&mut data, 1, &self.0);
        data
    }

    /// The flat form of a point given in uncompressed form: the 64 bytes
    /// behind the first one.
    pub fn from_uncompressed(data: &[u8; 65]) -> (r: Public)
        ensures
            r@ == data@.skip(1),
    {
        Public(bytes_from(data, 1))
    }
}

impl Secret {
    /// The scalar as the curve library's secret key. Fails with
    /// `InvalidSecret` exactly when the bytes are zero or not below the group
    /// order.
    pub fn to_secp256k1_secret(&self) -> (r: Result<secp256k1::SecretKey, Error>)
        ensures
            match r {
                Ok(key) => is_scalar(self@) && secret_scalar(key) == self@,
                Err(e) => !is_scalar(self@) && e == Error::InvalidSecret,
            },
    {
        match parse_scalar(self.0) {
            Some(key) => Ok(key),
            None => Err(Error::InvalidSecret),
        }
    }
}

} // verus!
