//! Latitude and longitude, judged by the bits of their IEEE 754 doubles.
//!
//! A double is a sign, an exponent field of 11 bits and a fraction field of
//! 52 bits. With the sign aside, the number it stands for grows with the
//! bits read as an integer, which is how a range is checked here.

use vstd::prelude::*;
use vstd::arithmetic::power2::{
    lemma2_to64, lemma2_to64_rest, lemma_pow2_adds, lemma_pow2_pos, lemma_pow2_strictly_increases,
    lemma_pow2_unfold, pow2,
};

verus! {

/// A latitude or a longitude as it arrives: the bits of its double, by which
/// its range is judged, and its decimal notation, as a request carries it.
#[derive(Debug)]
pub struct Coordinate {
    pub bits: u64,
    pub text: String,
}

/// A coordinate with its notation as a sequence of characters.
pub struct CoordinateView {
    pub bits: u64,
    pub text: Seq<char>,
}

impl View for Coordinate {
    type V = CoordinateView;

    open spec fn view(&self) -> CoordinateView {
        CoordinateView { bits: self.bits, text: self.text@ }
    }
}

/// The exponent field of a double.
pub open spec fn exponent_field(bits: u64) -> nat {
    ((bits as nat) / 0x10_0000_0000_0000) % 0x800
}

/// The fraction field of a double.
pub open spec fn fraction_field(bits: u64) -> nat {
    (bits as nat) % 0x10_0000_0000_0000
}

/// Whether the bits stand for a number at all: neither an infinity nor a NaN.
pub open spec fn is_finite(bits: u64) -> bool {
    exponent_field(bits) != 0x7ff
}

/// The size, in units of 2^-1074, of the number with these two fields. An
/// exponent field of zero marks a subnormal, which has no hidden bit.
pub open spec fn size(exponent: nat, fraction: nat) -> nat {
    if exponent == 0 {
        fraction
    } else {
        (0x10_0000_0000_0000 + fraction) * pow2((exponent - 1) as nat)
    }
}

/// The size of the number that finite bits stand for, whatever its sign, in
/// units of 2^-1074.
pub open spec fn magnitude(bits: u64) -> nat {
    size(exponent_field(bits), fraction_field(bits))
}

/// Whether the bits stand for a number from `-limit` to `limit`, both included.
pub open spec fn within(bits: u64, limit: nat) -> bool {
    is_finite(bits) && magnitude(bits) <= limit * pow2(1074)
}

/// A latitude lies between -90 and 90 degrees.
pub open spec fn valid_latitude(bits: u64) -> bool {
    within(bits, 90)
}

/// A longitude lies between -180 and 180 degrees.
pub open spec fn valid_longitude(bits: u64) -> bool {
    within(bits, 180)
}

/// A position is valid when both of its parts are.
pub open spec fn valid_latlon(lat: u64, lon: u64) -> bool {
    valid_latitude(lat) && valid_longitude(lon)
}

/// A number is smaller than the least one with the next exponent field.
proof fn size_below(exponent: nat, fraction: nat)
    requires
        fraction < 0x10_0000_0000_0000,
    ensures
        size(exponent, fraction) < 0x10_0000_0000_0000 * pow2(exponent),
{
    if exponent == 0 {
        lemma2_to64();
    } else {
        let p = pow2((exponent - 1) as nat);
        lemma_pow2_pos((exponent - 1) as nat);
        lemma_pow2_unfold(exponent);
        assert(pow2(exponent) == 2 * p);
        assert((0x10_0000_0000_0000 + fraction) * p < 0x10_0000_0000_0000 * (2 * p))
            by (nonlinear_arith)
            requires
                fraction < 0x10_0000_0000_0000,
                p > 0,
        ;
    }
}

/// A larger exponent field means a larger number, whatever the fractions.
proof fn size_grows_with_exponent(ea: nat, fa: nat, eb: nat, fb: nat)
    requires
        fa < 0x10_0000_0000_0000,
        ea < eb,
    ensures
        size(ea, fa) < size(eb, fb),
{
    size_below(ea, fa);
    let pa = pow2(ea);
    let pb = pow2((eb - 1) as nat);
    if ea < eb - 1 {
        lemma_pow2_strictly_increases(ea, (eb - 1) as nat);
    }
    assert(pa <= pb);
    assert(0x10_0000_0000_0000 * pa <= (0x10_0000_0000_0000 + fb) * pb) by (nonlinear_arith)
        requires
            pa <= pb,
    ;
}

/// Among finite doubles of one sign, the larger number has the larger bits.
proof fn size_follows_fields(ea: nat, fa: nat, eb: nat, fb: nat)
    requires
        fa < 0x10_0000_0000_0000,
        fb < 0x10_0000_0000_0000,
    ensures
        size(ea, fa) <= size(eb, fb) <==> ea * 0x10_0000_0000_0000 + fa <= eb * 0x10_0000_0000_0000
            + fb,
{
    if ea < eb {
        size_grows_with_exponent(ea, fa, eb, fb);
        assert(ea * 0x10_0000_0000_0000 + fa <= eb * 0x10_0000_0000_0000 + fb) by (nonlinear_arith)
            requires
                ea < eb,
                fa < 0x10_0000_0000_0000,
        ;
    } else if eb < ea {
        size_grows_with_exponent(eb, fb, ea, fa);
        assert(eb * 0x10_0000_0000_0000 + fb < ea * 0x10_0000_0000_0000 + fa) by (nonlinear_arith)
            requires
                eb < ea,
                fb < 0x10_0000_0000_0000,
        ;
    } else if ea != 0 {
        let p = pow2((ea - 1) as nat);
        lemma_pow2_pos((ea - 1) as nat);
        assert(((0x10_0000_0000_0000 + fa) * p <= (0x10_0000_0000_0000 + fb) * p) <==> fa <= fb)
            by (nonlinear_arith)
            requires
                p > 0,
        ;
    }
}

/// A range check on the bits without their sign decides `within`, where the
/// limit is the number whose fields are `exponent` and `fraction`.
proof fn within_by_bits(bits: u64, limit: nat, exponent: nat, fraction: nat)
    requires
        0 < exponent < 0x7ff,
        fraction < 0x10_0000_0000_0000,
        size(exponent, fraction) == limit * pow2(1074),
    ensures
        within(bits, limit) <==> (bits as nat) % 0x8000_0000_0000_0000 <= exponent
            * 0x10_0000_0000_0000 + fraction,
{
    let e = exponent_field(bits);
    let f = fraction_field(bits);
    assert((bits as nat) % 0x8000_0000_0000_0000 == e * 0x10_0000_0000_0000 + f);
    size_follows_fields(e, f, exponent, fraction);
    if e == 0x7ff {
        assert(exponent * 0x10_0000_0000_0000 + fraction < e * 0x10_0000_0000_0000 + f)
            by (nonlinear_arith)
            requires
                exponent < e,
                fraction < 0x10_0000_0000_0000,
        ;
    }
}

/// Whether the double with these bits is a latitude: a number from -90 to 90.
pub fn is_valid_latitude(bits: u64) -> (ok: bool)
    ensures
        ok == valid_latitude(bits),
{
    let unsigned = bits & 0x7fff_ffff_ffff_ffff;
    proof {
        assert(bits & 0x7fff_ffff_ffff_ffff == bits % 0x8000_0000_0000_0000) by (bit_vector);
        // 90 = (2^52 + 0x6_8000_0000_0000) * 2^(1029 - 1) * 2^-1074
        lemma2_to64_rest();
        lemma_pow2_adds(46, 1028);
        assert(size(0x405, 0x6_8000_0000_0000) == 90 * pow2(1074)) by (nonlinear_arith)
            requires
                size(0x405, 0x6_8000_0000_0000) == 0x16_8000_0000_0000 * pow2(1028),
                pow2(1074) == 0x4000_0000_0000 * pow2(1028),
        ;
        within_by_bits(bits, 90, 0x405, 0x6_8000_0000_0000);
    }
    unsigned <= 0x4056_8000_0000_0000
}

/// Whether the double with these bits is a longitude: a number from -180 to 180.
pub fn is_valid_longitude(bits: u64) -> (ok: bool)
    ensures
        ok == valid_longitude(bits),
{
    let unsigned = bits & 0x7fff_ffff_ffff_ffff;
    proof {
        assert(bits & 0x7fff_ffff_ffff_ffff == bits % 0x8000_0000_0000_0000) by (bit_vector);
        // 180 = (2^52 + 0x6_8000_0000_0000) * 2^(1030 - 1) * 2^-1074
        lemma2_to64_rest();
        lemma_pow2_adds(47, 1028);
        lemma_pow2_unfold(1029);
        lemma_pow2_unfold(1075);
        assert(size(0x406, 0x6_8000_0000_0000) == 180 * pow2(1074)) by (nonlinear_arith)
            requires
                size(0x406, 0x6_8000_0000_0000) == 0x16_8000_0000_0000 * pow2(1029),
                pow2(1029) == 2 * pow2(1028),
                pow2(1075) == 0x8000_0000_0000 * pow2(1028),
                pow2(1075) == 2 * pow2(1074),
        ;
        within_by_bits(bits, 180, 0x406, 0x6_8000_0000_0000);
    }
    unsigned <= 0x4066_8000_0000_0000
}

/// Whether the two doubles are a position: a latitude and a longitude.
pub fn is_valid_latlon(lat: u64, lon: u64) -> (ok: bool)
    ensures
        ok == valid_latlon(lat, lon),
{
    is_valid_latitude(lat) && is_valid_longitude(lon)
}

} // verus!
