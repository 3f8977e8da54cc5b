//! Real quantities as the library carries them.
//!
//! Component values arrive as IEEE 754 single-precision numbers. The library
//! never rounds: it keeps each number as its bit pattern, decides what has to
//! be computed from it, and hands that out as a [`Quantity`] for the caller to
//! evaluate.
use vstd::prelude::*;

verus! {

/// An IEEE 754 single-precision number, held as its bit pattern.
#[derive(Clone, Copy, Debug, PartialEq, Eq, Structural)]
pub struct Scalar {
    pub bits: u32,
}

impl Scalar {
    /// The number whose encoding is `bits`.
    pub fn from_bits(bits: u32) -> (s: Scalar)
        ensures
            s.bits == bits,
    {
        Scalar { bits }
    }

    /// The encoding of this number.
    pub fn to_bits(&self) -> (bits: u32)
        ensures
            bits == self.bits,
    {
        self.bits
    }

    /// Positive zero.
    pub open spec fn spec_zero() -> Scalar {
        Scalar { bits: 0 }
    }

    /// Positive zero.
    #[verifier::when_used_as_spec(spec_zero)]
    pub fn zero() -> (s: Scalar)
        ensures
            s == Self::spec_zero(),
    {
        Scalar { bits: 0 }
    }

    /// The largest finite number of the format.
    pub open spec fn spec_largest() -> Scalar {
        Scalar { bits: 0x7f7f_ffff }
    }

    /// The largest finite number of the format.
    #[verifier::when_used_as_spec(spec_largest)]
    pub fn largest() -> (s: Scalar)
        ensures
            s == Self::spec_largest(),
    {
        Scalar { bits: 0x7f7f_ffff }
    }

    /// The biased exponent field, bits 23 to 30 of the encoding.
    pub open spec fn exponent(&self) -> int {
        (self.bits as int / 0x80_0000) % 0x100
    }

    /// Whether the number compares equal to zero: the encoding is that of
    /// positive or of negative zero.
    pub open spec fn spec_is_zero(&self) -> bool {
        self.bits == 0 || self.bits == 0x8000_0000
    }

    /// Whether the number compares equal to zero.
    #[verifier::when_used_as_spec(spec_is_zero)]
    pub fn is_zero(&self) -> (zero: bool)
        ensures
            zero == self.spec_is_zero(),
    {
        self.bits == 0 || self.bits == 0x8000_0000
    }

    /// Whether the number is neither an infinity nor a NaN: its exponent
    /// field is not all ones.
    pub open spec fn spec_is_finite(&self) -> bool {
        self.exponent() != 0xff
    }

    /// Whether the number is neither an infinity nor a NaN.
    #[verifier::when_used_as_spec(spec_is_finite)]
    pub fn is_finite(&self) -> (finite: bool)
        ensures
            finite == self.spec_is_finite(),
    {
        (self.bits / 0x80_0000) % 0x100 != 0xff
    }
}

/// A complex number given by its real and imaginary parts.
#[derive(Clone, Copy, Debug, PartialEq, Eq, Structural)]
pub struct Phasor {
    pub re: Scalar,
    pub im: Scalar,
}

impl Phasor {
    pub fn new(re: Scalar, im: Scalar) -> (p: Phasor)
        ensures
            p.re == re,
            p.im == im,
    {
        Phasor { re, im }
    }

    /// The complex number zero, both parts positive zero.
    pub open spec fn spec_zero() -> Phasor {
        Phasor { re: Scalar::spec_zero(), im: Scalar::spec_zero() }
    }

    /// The complex number zero.
    #[verifier::when_used_as_spec(spec_zero)]
    pub fn zero() -> (p: Phasor)
        ensures
            p == Self::spec_zero(),
    {
        Phasor { re: Scalar::zero(), im: Scalar::zero() }
    }

    /// Whether the number compares equal to zero: both parts do.
    pub open spec fn spec_is_zero(&self) -> bool {
        self.re.spec_is_zero() && self.im.spec_is_zero()
    }

    /// Whether the number compares equal to zero.
    #[verifier::when_used_as_spec(spec_is_zero)]
    pub fn is_zero(&self) -> (zero: bool)
        ensures
            zero == self.spec_is_zero(),
    {
        self.re.is_zero() && self.im.is_zero()
    }
}

/// A number that the caller is to compute.
#[derive(Clone, Copy, Debug, PartialEq, Eq, Structural)]
pub enum Quantity {
    /// Exactly zero.
    Zero,
    /// Exactly one.
    One,
    /// The scalar itself.
    Value(Scalar),
    /// The reciprocal of the scalar.
    Reciprocal(Scalar),
    /// `value` times the reciprocal of `resistance`.
    Scaled { value: Scalar, resistance: Scalar },
    /// `left` times `right`.
    Product { left: Scalar, right: Scalar },
    /// The reciprocal of `left` times `right`.
    ProductReciprocal { left: Scalar, right: Scalar },
}

/// One signed summand of a matrix or vector entry.
#[derive(Clone, Copy, Debug, PartialEq, Eq, Structural)]
pub struct Term {
    /// Whether the quantity is subtracted rather than added.
    pub negative: bool,
    pub quantity: Quantity,
}

impl Term {
    pub fn new(negative: bool, quantity: Quantity) -> (t: Term)
        ensures
            t.negative == negative,
            t.quantity == quantity,
    {
        Term { negative, quantity }
    }

    /// The term that is worth zero.
    pub open spec fn spec_zero() -> Term {
        Term { negative: false, quantity: Quantity::Zero }
    }

    /// The term that is worth zero.
    #[verifier::when_used_as_spec(spec_zero)]
    pub fn zero() -> (t: Term)
        ensures
            t == Self::spec_zero(),
    {
        Term { negative: false, quantity: Quantity::Zero }
    }
}

/// A complex number that the caller is to compute, part by part.
#[derive(Clone, Copy, Debug, PartialEq, Eq, Structural)]
pub struct Impedance {
    /// The resistance, the real part.
    pub re: Term,
    /// The reactance, the imaginary part.
    pub im: Term,
}

impl Impedance {
    /// The impedance whose parts are both worth zero.
    pub open spec fn spec_zero() -> Impedance {
        Impedance { re: Term::spec_zero(), im: Term::spec_zero() }
    }

    /// The impedance whose parts are both worth zero.
    #[verifier::when_used_as_spec(spec_zero)]
    pub fn zero() -> (z: Impedance)
        ensures
            z == Self::spec_zero(),
    {
        Impedance { re: Term::zero(), im: Term::zero() }
    }
}

} // verus!
