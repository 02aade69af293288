//! The plain values that attributes are read into.

use vstd::prelude::*;

verus! {

/// A 16-bit pixel value that is either unsigned or signed, depending on the
/// value representation of the element it was read from.
///
/// A value read from an element has exactly one of the two fields set.
/// Only the default value has neither.
#[derive(Copy, Clone, Debug, PartialEq, Eq, Structural)]
pub struct UsSs {
    /// The value, if the element was an unsigned short (`US`).
    pub us: Option<u16>,
    /// The value, if the element was a signed short (`SS`).
    pub ss: Option<i16>,
}

impl UsSs {
    /// Exactly one of the two fields is set.
    pub open spec fn is_resolved(self) -> bool {
        (self.us is Some) != (self.ss is Some)
    }

    /// The value read from an unsigned short.
    pub fn unsigned(value: u16) -> (r: UsSs)
        ensures
            r == (UsSs { us: Some(value), ss: None }),
            r.is_resolved(),
    {
        UsSs { us: Some(value), ss: None }
    }

    /// The value read from a signed short.
    pub fn signed(value: i16) -> (r: UsSs)
        ensures
            r == (UsSs { us: None, ss: Some(value) }),
            r.is_resolved(),
    {
        UsSs { us: None, ss: Some(value) }
    }
}

impl DeepView for UsSs {
    type V = UsSs;

    open spec fn deep_view(&self) -> UsSs {
        *self
    }
}

impl Default for UsSs {
    /// The unset value: neither field is populated.
    fn default() -> (r: UsSs)
        ensures
            r == (UsSs { us: None, ss: None }),
            !r.is_resolved(),
    {
        UsSs { us: None, ss: None }
    }
}

/// A value representation, held as its two-letter code in ASCII.
#[derive(Copy, Clone, Debug, PartialEq, Eq, Structural)]
pub struct Vr {
    /// The first letter of the code.
    pub first: u8,
    /// The second letter of the code.
    pub second: u8,
}

/// Which of the two 16-bit integer types a value representation stands for.
#[derive(Copy, Clone, Debug, PartialEq, Eq, Structural)]
pub enum Signedness {
    /// Unsigned short, `US`.
    Unsigned,
    /// Signed short, `SS`.
    Signed,
}

impl Vr {
    /// The 16-bit integer type that this value representation stands for:
    /// unsigned for `US`, signed for `SS`, none for any other code.
    pub open spec fn spec_signedness(&self) -> Option<Signedness> {
        if self.first == 0x55 && self.second == 0x53 {
            Some(Signedness::Unsigned)
        } else if self.first == 0x53 && self.second == 0x53 {
            Some(Signedness::Signed)
        } else {
            None
        }
    }

    /// The 16-bit integer type that this value representation stands for:
    /// unsigned for `US`, signed for `SS`, none for any other code.
    #[verifier::when_used_as_spec(spec_signedness)]
    pub fn signedness(&self) -> (r: Option<Signedness>)
        ensures
            r == self.spec_signedness(),
    {
        if self.first == 0x55 && self.second == 0x53 {
            Some(Signedness::Unsigned)
        } else if self.first == 0x53 && self.second == 0x53 {
            Some(Signedness::Signed)
        } else {
            None
        }
    }
}

/// A double-precision floating-point number, held as its IEEE 754 bit pattern.
///
/// Two values are equal when their bit patterns are.
#[derive(Copy, Clone, Debug, PartialEq, Eq, Structural)]
pub struct Float64 {
    /// The 64 bits of the number.
    pub bits: u64,
}

impl DeepView for Float64 {
    type V = Float64;

    open spec fn deep_view(&self) -> Float64 {
        *self
    }
}

} // verus!
