//! External real-time clock chips on an I2C bus.

pub mod rv_3028_v7;
pub mod rx8130ce;

use vstd::prelude::*;

use super::{CurrentTime, I2CRtcCtrl, I2CRtcError};
use rv_3028_v7::{Rv3028v7, RV3028V7_I2C_ADDR};
use rx8130ce::{Rx8130ce, RX8130CE_I2C_ADDR};

verus! {

/// One transfer on an I2C bus: the device address, the bytes sent, the bytes
/// received, and whether the bus reported success.
pub type I2cTransfer = (u8, Seq<u8>, Seq<u8>, bool);

/// A transfer that sends `sent` to `address` and receives nothing.
pub open spec fn sent_only(address: u8, sent: Seq<u8>, ok: bool) -> I2cTransfer {
    (address, sent, Seq::<u8>::empty(), ok)
}

/// `n` is `o` followed by one transfer to `address` that sent `sent` and
/// received `len` bytes.
pub open spec fn then_transfer(
    o: Seq<I2cTransfer>,
    n: Seq<I2cTransfer>,
    address: u8,
    sent: Seq<u8>,
    len: nat,
) -> bool {
    &&& n.len() == o.len() + 1
    &&& n.drop_last() == o
    &&& n.last().0 == address
    &&& n.last().1 == sent
    &&& n.last().2.len() == len
}

/// What a driver answers after a write that the bus did or did not take.
pub open spec fn write_result(ok: bool) -> Result<(), I2CRtcError> {
    if ok {
        Ok(())
    } else {
        Err(I2CRtcError::I2cWriteError)
    }
}

/// An I2C bus master, addressing devices by their 7-bit address. Each
/// transfer is described by what it adds to `spec_transfers`.
pub trait I2cBus {
    /// The transfers made on the bus so far, oldest first. A bus that Verus
    /// checks gives its own; the default only lets a bus outside the proofs
    /// be written without one.
    open spec fn spec_transfers(&self) -> Seq<I2cTransfer> {
        Seq::empty()
    }

    /// Sends `bytes` to the device at `address`.
    fn write(&mut self, address: u8, bytes: &[u8]) -> (r: Result<(), ()>)
        ensures
            final(self).spec_transfers() == old(self).spec_transfers().push(
                sent_only(address, bytes@, r is Ok),
            ),
    ;

    /// Receives `buffer.len()` bytes from the device at `address`; a slice
    /// behind `&mut` keeps its length.
    fn read(&mut self, address: u8, buffer: &mut [u8]) -> (r: Result<(), ()>)
        ensures
            final(buffer)@.len() == old(buffer)@.len(),
            final(self).spec_transfers() == old(self).spec_transfers().push(
                (address, Seq::<u8>::empty(), final(buffer)@, r is Ok),
            ),
    ;

    /// Sends `bytes`, then receives `buffer.len()` bytes, in one transfer.
    fn write_read(&mut self, address: u8, bytes: &[u8], buffer: &mut [u8]) -> (r: Result<(), ()>)
        ensures
            final(buffer)@.len() == old(buffer)@.len(),
            final(self).spec_transfers() == old(self).spec_transfers().push(
                (address, bytes@, final(buffer)@, r is Ok),
            ),
    ;
}

/// The two-digit BCD byte of `value`: tens in the high nibble, ones in the
/// low one, kept to eight bits.
pub open spec fn spec_dec2bcd(value: u8) -> u8 {
    (((value / 10) * 16 + value % 10) % 256) as u8
}

/// The number that a BCD byte holds.
pub open spec fn spec_bcd2dec(value: u8) -> u8 {
    ((value / 16) * 10 + value % 16) as u8
}

pub fn dec2bcd(value: u8) -> (r: u8)
    ensures
        r == spec_dec2bcd(value),
{
    let r = ((value / 10) << 4u8) | (value % 10);
    assert(((value / 10) << 4u8) | (value % 10) == (((value / 10) * 16 + value % 10) % 256) as u8)
        by (bit_vector);
    r
}

pub fn bcd2dec(value: u8) -> (r: u8)
    ensures
        r == spec_bcd2dec(value),
{
    assert((value >> 4u8) == value / 16 && (value & 0x0F) == value % 16) by (bit_vector);
    ((value >> 4u8) * 10) + (value & 0x0F)
}

/// A BCD byte: both nibbles are decimal digits.
pub open spec fn is_bcd(b: u8) -> bool {
    b / 16 < 10 && b % 16 < 10
}

/// Numbers below 100 come back from their BCD byte.
pub proof fn law_bcd_round_trip(value: u8)
    requires
        value < 100,
    ensures
        spec_bcd2dec(spec_dec2bcd(value)) == value,
        is_bcd(spec_dec2bcd(value)),
{
    let b = spec_dec2bcd(value);
    assert(b == (value / 10) * 16 + value % 10);
    assert(b / 16 == value / 10 && b % 16 == value % 10);
}

/// BCD bytes come back from the number they hold.
pub proof fn law_dec_round_trip(b: u8)
    requires
        is_bcd(b),
    ensures
        spec_bcd2dec(b) < 100,
        spec_dec2bcd(spec_bcd2dec(b)) == b,
{
    let v = spec_bcd2dec(b);
    assert(v == (b / 16) * 10 + b % 16);
    assert(v / 10 == b / 16 && v % 10 == b % 16);
}

/// The chip found on the bus.
pub enum ExtRtcType<I2C> {
    Rx8130ce(Rx8130ce<I2C>),
    Rv3028v7(Rv3028v7<I2C>),
}

impl<I2C: I2cBus> ExtRtcType<I2C> {
    /// The transfers made on the chip's bus so far.
    pub open spec fn transfers(&self) -> Seq<I2cTransfer> {
        match self {
            ExtRtcType::Rx8130ce(rtc) => rtc.transfers(),
            ExtRtcType::Rv3028v7(rtc) => rtc.transfers(),
        }
    }
}

impl<I2C: I2cBus> I2CRtcCtrl for ExtRtcType<I2C> {
    /// The time as the chip found reads it.
    fn current_time(&mut self) -> (r: Result<CurrentTime, I2CRtcError>)
        ensures
            (*final(self) is Rx8130ce) == (*old(self) is Rx8130ce),
            *old(self) is Rx8130ce ==> rx8130ce::spec_current_time_done(
                old(self).transfers(),
                final(self).transfers(),
                r,
            ),
            *old(self) is Rv3028v7 ==> rv_3028_v7::spec_current_time_done(
                old(self).transfers(),
                final(self).transfers(),
                r,
            ),
    {
        match self {
            ExtRtcType::Rx8130ce(rtc) => rtc.current_time(),
            ExtRtcType::Rv3028v7(rtc) => rtc.current_time(),
        }
    }

    /// Sets the time as the chip found does.
    fn set_time(&mut self, time: CurrentTime) -> (r: Result<(), I2CRtcError>)
        ensures
            (*final(self) is Rx8130ce) == (*old(self) is Rx8130ce),
            *old(self) is Rx8130ce ==> rx8130ce::spec_set_time_done(
                old(self).transfers(),
                final(self).transfers(),
                time,
                r,
            ),
            *old(self) is Rv3028v7 ==> rv_3028_v7::spec_set_time_done(
                old(self).transfers(),
                final(self).transfers(),
                time,
                r,
            ),
    {
        match self {
            ExtRtcType::Rx8130ce(rtc) => rtc.set_time(time),
            ExtRtcType::Rv3028v7(rtc) => rtc.set_time(time),
        }
    }

    /// Sets the clock output as the chip found does.
    fn set_tick_period(&mut self, period_hz: u32) -> (r: Result<(), I2CRtcError>)
        ensures
            (*final(self) is Rx8130ce) == (*old(self) is Rx8130ce),
            *old(self) is Rx8130ce ==> rx8130ce::spec_set_tick_period_done(
                old(self).transfers(),
                final(self).transfers(),
                period_hz,
                r,
            ),
            *old(self) is Rv3028v7 ==> rv_3028_v7::spec_set_tick_period_done(
                old(self).transfers(),
                final(self).transfers(),
                period_hz,
                r,
            ),
    {
        match self {
            ExtRtcType::Rx8130ce(rtc) => rtc.set_tick_period(period_hz),
            ExtRtcType::Rv3028v7(rtc) => rtc.set_tick_period(period_hz),
        }
    }
}

impl<I2C> ExtRtcType<I2C> {
    /// The chip's name.
    pub fn name(&self) -> (r: &'static str)
        ensures
            *self is Rx8130ce ==> r@ == "RX-8130CE"@,
            *self is Rv3028v7 ==> r@ == "RV-3028-V7"@,
    {
        match self {
            ExtRtcType::Rx8130ce(_) => "RX-8130CE",
            ExtRtcType::Rv3028v7(_) => "RV-3028-V7",
        }
    }
}

/// The chip that answers on the bus: the RX-8130CE if it acknowledges its
/// address, else the RV-3028-C7; the bus comes back where neither answers.
/// The probes are the first transfers on the bus that the driver found holds.
pub fn try_detect_i2c_rtc<I2C: I2cBus>(i2c: I2C) -> (r: Result<ExtRtcType<I2C>, I2C>)
    ensures
        ({
            let o = i2c.spec_transfers();
            let n = match r {
                Ok(c) => c.transfers(),
                Err(b) => b.spec_transfers(),
            };
            &&& n.len() >= o.len() + 1
            &&& n.take(o.len() as int) == o
            &&& n[o.len() as int] == sent_only(RX8130CE_I2C_ADDR, Seq::<u8>::empty(), n[o.len() as int].3)
            &&& n[o.len() as int].3 ==> n.len() == o.len() + 1 && (r matches Ok(c) && c is Rx8130ce)
            &&& !n[o.len() as int].3 ==> {
                &&& n.len() == o.len() + 2
                &&& n[o.len() as int + 1] == sent_only(RV3028V7_I2C_ADDR, Seq::<u8>::empty(), n[o.len() as int + 1].3)
                &&& n[o.len() as int + 1].3 ==> (r matches Ok(c) && c is Rv3028v7)
                &&& !n[o.len() as int + 1].3 ==> r is Err
            }
        }),
{
    let ghost o = i2c.spec_transfers();
    let mut bus = i2c;
    let empty: [u8; 0] = [];
    proof {
        assert(empty@ =~= Seq::<u8>::empty());
    }
    let first = bus.write(RX8130CE_I2C_ADDR, empty.as_slice());
    let ghost t1 = bus.spec_transfers();
    proof {
        assert(t1.take(o.len() as int) =~= o);
    }
    if first.is_ok() {
        return Ok(ExtRtcType::Rx8130ce(Rx8130ce::new(bus)));
    }
    let second = bus.write(RV3028V7_I2C_ADDR, empty.as_slice());
    proof {
        let n = bus.spec_transfers();
        assert(n.take(o.len() as int) =~= o);
        assert(n[o.len() as int] == t1[o.len() as int]);
    }
    if second.is_ok() {
        Ok(ExtRtcType::Rv3028v7(Rv3028v7::new(bus)))
    } else {
        Err(bus)
    }
}

} // verus!
