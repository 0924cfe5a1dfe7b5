//! The alternate-bytes register (ABR): one 32-bit field, `ALTERNATE`.
#![allow(non_camel_case_types)]

use vstd::prelude::*;

verus! {

/// Marker of the alternate-bytes register.
pub struct ABR_SPEC;

impl ABR_SPEC {
    /// The register's value after reset.
    pub fn reset_value() -> (r: u32)
        ensures
            r == 0,
    {
        0
    }
}

/// A value read from the register.
#[derive(Copy, Clone, Debug, PartialEq, Eq, Structural)]
pub struct R {
    pub bits: u32,
}

/// A value being composed for a write to the register.
#[derive(Debug, PartialEq, Eq, Structural)]
pub struct W {
    pub bits: u32,
}

/// The `ALTERNATE` field as read.
#[derive(Copy, Clone, Debug, PartialEq, Eq, Structural)]
pub struct ALTERNATE_R {
    pub bits: u32,
}

/// Writer of the `ALTERNATE` field into a register value.
pub struct ALTERNATE_W<'a> {
    pub w: &'a mut W,
}

impl ALTERNATE_R {
    pub fn new(bits: u32) -> (r: Self)
        ensures
            r.bits == bits,
    {
        ALTERNATE_R { bits }
    }

    /// The field's raw bits.
    pub fn bits(&self) -> (r: u32)
        ensures
            r == self.bits,
    {
        self.bits
    }
}

impl R {
    pub fn from_bits(bits: u32) -> (r: Self)
        ensures
            r.bits == bits,
    {
        R { bits }
    }

    /// Bits 0:31: the whole register.
    pub fn alternate(&self) -> (r: ALTERNATE_R)
        ensures
            r.bits == self.bits,
    {
        ALTERNATE_R::new(self.bits)
    }
}

impl W {
    /// A writer that starts from the reset value.
    pub fn reset() -> (w: Self)
        ensures
            w.bits == 0,
    {
        W { bits: ABR_SPEC::reset_value() }
    }

    /// Bits 0:31: the whole register.
    pub fn alternate(&mut self) -> (r: ALTERNATE_W<'_>)
        ensures
            *r.w == *old(self),
            *final(self) == *final(r.w),
    {
        ALTERNATE_W { w: self }
    }

    /// Writes raw bits to the register.
    pub fn bits(&mut self, bits: u32)
        ensures
            final(self).bits == bits,
    {
        self.bits = bits;
    }
}

impl<'a> ALTERNATE_W<'a> {
    /// Writes raw bits to the field, which spans the register.
    pub fn bits(self, value: u32)
        ensures
            final(self.w).bits == value,
    {
        self.w.bits = value;
    }
}

} // verus!
