//! The polling-interval register (PIR): bits 0:15 hold `INTERVAL`, the number
//! of clock cycles between two reads in automatic polling mode.
#![allow(non_camel_case_types)]

use vstd::prelude::*;

verus! {

/// Marker of the polling-interval register.
pub struct PIR_SPEC;

impl PIR_SPEC {
    /// The register's value after reset.
    pub fn reset_value() -> (r: u32)
        ensures
            r == 0,
    {
        0
    }
}

/// The low half-word of a register value: the `INTERVAL` field.
pub open spec fn interval_of(bits: u32) -> u16 {
    (bits & 0xffff) as u16
}

/// `bits` with its `INTERVAL` field replaced by `value`.
pub open spec fn with_interval(bits: u32, value: u16) -> u32 {
    (bits & !0xffffu32) | (value as u32 & 0xffff)
}

/// A value read from the register.
#[derive(Copy, Clone, Debug, PartialEq, Eq, Structural)]
pub struct R {
    pub bits: u32,
}

/// A value being composed for a write to the register.
#[derive(Debug, PartialEq, Eq, Structural)]
pub struct W {
    pub bits: u32,
}

/// The `INTERVAL` field as read.
#[derive(Copy, Clone, Debug, PartialEq, Eq, Structural)]
pub struct INTERVAL_R {
    pub bits: u16,
}

/// Writer of the `INTERVAL` field into a register value.
pub struct INTERVAL_W<'a> {
    pub w: &'a mut W,
}

impl INTERVAL_R {
    pub fn new(bits: u16) -> (r: Self)
        ensures
            r.bits == bits,
    {
        INTERVAL_R { bits }
    }

    /// The field's raw bits.
    pub fn bits(&self) -> (r: u16)
        ensures
            r == self.bits,
    {
        self.bits
    }
}

impl R {
    pub fn from_bits(bits: u32) -> (r: Self)
        ensures
            r.bits == bits,
    {
        R { bits }
    }

    /// Bits 0:15: the polling interval.
    pub fn interval(&self) -> (r: INTERVAL_R)
        ensures
            r.bits == interval_of(self.bits),
    {
        INTERVAL_R::new((self.bits & 0xffff) as u16)
    }
}

impl W {
    /// A writer that starts from the reset value.
    pub fn reset() -> (w: Self)
        ensures
            w.bits == 0,
    {
        W { bits: PIR_SPEC::reset_value() }
    }

    /// Bits 0:15: the polling interval.
    pub fn interval(&mut self) -> (r: INTERVAL_W<'_>)
        ensures
            *r.w == *old(self),
            *final(self) == *final(r.w),
    {
        INTERVAL_W { w: self }
    }

    /// Writes raw bits to the register.
    pub fn bits(&mut self, bits: u32)
        ensures
            final(self).bits == bits,
    {
        self.bits = bits;
    }
}

impl<'a> INTERVAL_W<'a> {
    /// Writes raw bits to the field and keeps the register's other bits.
    pub fn bits(self, value: u16)
        ensures
            final(self.w).bits == with_interval(old(self.w).bits, value),
    {
        self.w.bits = (self.w.bits & !0xffffu32) | (value as u32 & 0xffff);
    }
}

/// Reading the field back gives what was written into it, and the bits above
/// the field are those that stood there before.
pub proof fn law_interval_write_read(bits: u32, value: u16)
    ensures
        interval_of(with_interval(bits, value)) == value,
        with_interval(bits, value) >> 16u32 == bits >> 16u32,
{
    assert(((((bits & !0xffffu32) | (value as u32 & 0xffff)) & 0xffff) as u16) == value)
        by (bit_vector);
    assert(((bits & !0xffffu32) | (value as u32 & 0xffff)) >> 16u32 == bits >> 16u32)
        by (bit_vector);
}

} // verus!
