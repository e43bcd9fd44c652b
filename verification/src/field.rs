//! Numbers behind the byte buffers: the big-endian value of a byte string,
//! the field prime, the group order and the curve equation.

use vstd::prelude::*;
use vstd::arithmetic::div_mod::{
    lemma_fundamental_div_mod_converse, lemma_mod_multiples_vanish, lemma_small_mod,
};

verus! {

/// The prime `p` of the field that the curve is defined over:
/// `2^256 - 2^32 - 977`.
pub open spec fn field_prime() -> nat {
    0xFFFFFFFF_FFFFFFFF_FFFFFFFF_FFFFFFFF_FFFFFFFF_FFFFFFFF_FFFFFFFE_FFFFFC2Fnat
}

/// The order `n` of the group of points on the curve.
pub open spec fn group_order() -> nat {
    0xFFFFFFFF_FFFFFFFF_FFFFFFFF_FFFFFFFE_BAAEDCE6_AF48A03B_BFD25E8C_D0364141nat
}

/// The number that `bytes` spells in base 256, most significant byte first.
pub open spec fn be_value(bytes: Seq<u8>) -> nat
    decreases bytes.len(),
{
    if bytes.len() == 0 {
        0
    } else {
        be_value(bytes.drop_last()) * 256 + bytes.last() as nat
    }
}

/// `len` zero bytes.
pub open spec fn zeros(len: nat) -> Seq<u8> {
    Seq::new(len, |i: int| 0u8)
}

/// Bytes that are all zero spell zero.
pub proof fn lemma_be_value_of_zeros(bytes: Seq<u8>)
    requires
        forall|i: int| 0 <= i < bytes.len() ==> bytes[i] == 0,
    ensures
        be_value(bytes) == 0,
    decreases bytes.len(),
{
    if bytes.len() > 0 {
        lemma_be_value_of_zeros(bytes.drop_last());
    }
}

/// Whether `(x, y)` are the affine coordinates of a point on the curve
/// `y^2 = x^3 + 7` over the field of `field_prime()` elements.
pub open spec fn on_curve(x: nat, y: nat) -> bool {
    &&& x < field_prime()
    &&& y < field_prime()
    &&& (y * y) % field_prime() == (x * x * x + 7) % field_prime()
}

/// Replacing `y` by its negative in the field keeps a point on the curve.
pub proof fn lemma_negated_y_on_curve(x: nat, y: nat)
    requires
        on_curve(x, y),
    ensures
        on_curve(x, ((field_prime() - y) % (field_prime() as int)) as nat),
{
    let p = field_prime() as int;
    let y = y as int;
    if y == 0 {
        assert((p - 0) % p == 0);
    } else {
        let z = p - y;
        lemma_small_mod(z as nat, p as nat);
        assert(z * z == p * (p - 2 * y) + y * y) by (nonlinear_arith)
            requires
                z == p - y,
        ;
        lemma_mod_multiples_vanish(p - 2 * y, y * y, p);
    }
}

/// The X coordinate of the curve's generator.
pub open spec fn generator_x_value() -> nat {
    0x79BE667E_F9DCBBAC_55A06295_CE870B07_029BFCDB_2DCE28D9_59F2815B_16F81798nat
}

/// The Y coordinate of the curve's generator.
pub open spec fn generator_y_value() -> nat {
    0x483ADA77_26A3C465_5DA4FBFC_0E1108A8_FD17B448_A6855419_9C47D08F_FB10D4B8nat
}

/// The 32 bytes of the generator's X coordinate.
pub open spec fn generator_x_bytes() -> Seq<u8> {
    seq![
        0x79, 0xbe, 0x66, 0x7e, 0xf9, 0xdc, 0xbb, 0xac,
        0x55, 0xa0, 0x62, 0x95, 0xce, 0x87, 0x0b, 0x07,
        0x02, 0x9b, 0xfc, 0xdb, 0x2d, 0xce, 0x28, 0xd9,
        0x59, 0xf2, 0x81, 0x5b, 0x16, 0xf8, 0x17, 0x98,
    ]
}

/// The 32 bytes of the generator's Y coordinate.
pub open spec fn generator_y_bytes() -> Seq<u8> {
    seq![
        0x48, 0x3a, 0xda, 0x77, 0x26, 0xa3, 0xc4, 0x65,
        0x5d, 0xa4, 0xfb, 0xfc, 0x0e, 0x11, 0x08, 0xa8,
        0xfd, 0x17, 0xb4, 0x48, 0xa6, 0x85, 0x54, 0x19,
        0x9c, 0x47, 0xd0, 0x8f, 0xfb, 0x10, 0xd4, 0xb8,
    ]
}

/// The generator's coordinates satisfy the curve equation.
pub proof fn lemma_generator_on_curve()
    ensures
        on_curve(generator_x_value(), generator_y_value()),
{
    let p = field_prime() as int;
    let x = generator_x_value() as int;
    let y = generator_y_value() as int;
    // Both sides of the equation leave the remainder `r`; `q1` and `q2` are
    // their quotients by the prime.
    let r = 0x4866D6A5_AB41AB2C_6BCC57CC_D3735DA5_F16F80A5_48E5E20A_44E4E9B8_118C26F2int;
    let q1 = 0x1461286A_BE28C5F1_DF2D7D4B_CA391B50_70F6EC67_8FE75B56_871BF154_987E3E12int;
    let q2 = 0x1B888E01_A06E9740_17A28A5B_4DA43616_9761C973_0B7AEEDF_75FC60F6_A33CFC77_A75F9CDB_DD2B234A_EA3E62CA_E5739834_00F338EF_EC38B3EB_3B780B1E_8C9223FBint;
    assert(y * y == q1 * p + r);
    assert(x * x * x + 7 == q2 * p + r);
    lemma_fundamental_div_mod_converse(y * y, p, q1, r);
    lemma_fundamental_div_mod_converse(x * x * x + 7, p, q2, r);
}

/// The generator's byte strings spell its coordinates.
pub proof fn lemma_generator_bytes()
    ensures
        generator_x_bytes().len() == 32,
        generator_y_bytes().len() == 32,
        be_value(generator_x_bytes()) == generator_x_value(),
        be_value(generator_y_bytes()) == generator_y_value(),
{
    reveal_with_fuel(be_value, 33);
}

} // verus!
