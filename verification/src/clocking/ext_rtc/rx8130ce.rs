//! The RX-8130CE real-time clock.

use vstd::prelude::*;
use vstd::std_specs::bits::u8_trailing_zeros;

use super::super::{CurrentTime, I2CRtcCtrl, I2CRtcError};
use super::{
    bcd2dec, dec2bcd, spec_bcd2dec, spec_dec2bcd, then_transfer, write_result, I2cBus, I2cTransfer,
};

verus! {

pub const RX8130CE_I2C_ADDR: u8 = 0x32;

/// First of the seven time registers.
pub const REG_SECONDS: u8 = 0x10;

/// The extension register, which holds the clock output's frequency.
pub const EXTANSION_REG: u8 = 0x1C;

/// Position of the frequency field in the extension register.
pub const FSEL0_BIT_POS: u8 = 6;

/// First and number of the registers that a dump reads.
pub const REG_START: u8 = 0x10;

pub const REG_COUNT: usize = 0x10;

/// The weekday number (1 for the lowest bit) of a one-hot weekday register, 0
/// for no day.
pub open spec fn spec_weekday_mask_to_number(mask: u8) -> u8 {
    if mask == 0 {
        0
    } else {
        (u8_trailing_zeros(mask) + 1) as u8
    }
}

pub fn weekday_mask_to_number(mask: u8) -> (r: u8)
    ensures
        r == spec_weekday_mask_to_number(mask),
{
    if mask == 0 {
        0
    } else {
        proof {
            vstd::std_specs::bits::axiom_u8_trailing_zeros(mask);
        }
        mask.trailing_zeros() as u8 + 1
    }
}

/// The one-hot weekday register for weekday number `day`, 0 for day 0.
pub open spec fn spec_weekday_number_to_mask(day: u8) -> u8 {
    if day == 0 {
        0
    } else {
        1u8 << ((day - 1) as u8 & 0x07u8)
    }
}

pub fn weekday_number_to_mask(day: u8) -> (r: u8)
    ensures
        r == spec_weekday_number_to_mask(day),
{
    if day == 0 {
        0
    } else {
        let k: u8 = (day - 1) & 0x07;
        assert(k < 8) by (bit_vector)
            requires
                k == (day - 1) as u8 & 0x07u8,
        ;
        1u8 << k
    }
}

/// Weekdays 1 to 8 come back from their one-hot register.
pub proof fn law_weekday_round_trip(day: u8)
    requires
        1 <= day <= 8,
    ensures
        spec_weekday_mask_to_number(spec_weekday_number_to_mask(day)) == day,
{
    let k: u8 = (day - 1) as u8;
    assert(k & 0x07u8 == k) by (bit_vector)
        requires
            k < 8,
    ;
    let mask: u8 = 1u8 << k;
    assert(mask != 0) by (bit_vector)
        requires
            k < 8,
            mask == 1u8 << k,
    ;
    vstd::std_specs::bits::axiom_u8_trailing_zeros(mask);
    let tz = u8_trailing_zeros(mask);
    assert(tz < 8);
    let t: u8 = tz as u8;
    assert((mask >> t) & 1u8 == 1u8);
    assert(forall|j: u8| j < 8 && (mask >> j) & 1u8 == 1u8 ==> j == k) by (bit_vector)
        requires
            k < 8,
            mask == 1u8 << k,
    ;
    assert(t == k);
    assert((mask >> k) & 1u8 == 1u8) by (bit_vector)
        requires
            k < 8,
            mask == 1u8 << k,
    ;
}

/// The time in the seven time registers, seconds first; the century is 2000.
pub open spec fn spec_time_from_registers(raw: Seq<u8>) -> CurrentTime {
    CurrentTime {
        year: (2000 + spec_bcd2dec(raw[6] & 0x7F)) as u32,
        month: spec_bcd2dec(raw[5] & 0x1F) as u32,
        day_of_month: spec_bcd2dec(raw[4] & 0x3F) as u32,
        day_of_week: spec_weekday_mask_to_number(raw[3] & 0x7F) as u32,
        hours: spec_bcd2dec(raw[2] & 0x3F) as u32,
        minutes: spec_bcd2dec(raw[1] & 0x7F) as u32,
        seconds: spec_bcd2dec(raw[0] & 0x7F) as u32,
        milliseconds: 0,
    }
}

pub fn time_from_registers(raw: &[u8; 7]) -> (r: CurrentTime)
    ensures
        r == spec_time_from_registers(raw@),
{
    CurrentTime {
        year: 2000 + bcd2dec(raw[6] & 0x7F) as u32,
        month: bcd2dec(raw[5] & 0x1F) as u32,
        day_of_month: bcd2dec(raw[4] & 0x3F) as u32,
        day_of_week: weekday_mask_to_number(raw[3] & 0x7F) as u32,
        hours: bcd2dec(raw[2] & 0x3F) as u32,
        minutes: bcd2dec(raw[1] & 0x7F) as u32,
        seconds: bcd2dec(raw[0] & 0x7F) as u32,
        milliseconds: 0,
    }
}

/// The write that sets the time: the first register's address, then the
/// seven registers, the weekday one-hot.
pub open spec fn spec_time_payload(t: CurrentTime) -> Seq<u8> {
    seq![
        REG_SECONDS,
        spec_dec2bcd(t.seconds as u8),
        spec_dec2bcd(t.minutes as u8),
        spec_dec2bcd(t.hours as u8),
        spec_weekday_number_to_mask(t.day_of_week as u8),
        spec_dec2bcd(t.day_of_month as u8),
        spec_dec2bcd(t.month as u8),
        spec_dec2bcd((t.year % 100) as u8),
    ]
}

pub fn time_payload(t: &CurrentTime) -> (r: [u8; 8])
    ensures
        r@ == spec_time_payload(*t),
{
    let r: [u8; 8] = [
        REG_SECONDS,
        dec2bcd(t.seconds as u8),
        dec2bcd(t.minutes as u8),
        dec2bcd(t.hours as u8),
        weekday_number_to_mask(t.day_of_week as u8),
        dec2bcd(t.day_of_month as u8),
        dec2bcd(t.month as u8),
        dec2bcd((t.year % 100) as u8),
    ];
    proof {
        assert(r@ =~= spec_time_payload(*t));
    }
    r
}

/// The code of a clock output frequency, where the chip has it.
pub open spec fn spec_fout_rate(hz: u32) -> Option<u8> {
    if hz == 32_768 {
        Some(0b00)
    } else if hz == 1_024 {
        Some(0b01)
    } else if hz == 1 {
        Some(0b10)
    } else if hz == 0 {
        Some(0b11)
    } else {
        None
    }
}

pub fn fout_rate(hz: u32) -> (r: Result<u8, I2CRtcError>)
    ensures
        r == match spec_fout_rate(hz) {
            Some(b) => Ok::<u8, I2CRtcError>(b),
            None => Err(I2CRtcError::UnsupportedSetting),
        },
{
    match hz {
        32_768 => Ok(0b00),
        1_024 => Ok(0b01),
        1 => Ok(0b10),
        0 => Ok(0b11),
        _ => Err(I2CRtcError::UnsupportedSetting),
    }
}

/// The extension register with the frequency field (bits 6 and 7) set to
/// `rate`; the other bits kept.
pub open spec fn spec_extension_value(current: u8, rate: u8) -> u8 {
    (current & !(0b11u8 << FSEL0_BIT_POS)) | (rate << FSEL0_BIT_POS)
}

pub fn extension_value(current: u8, rate: u8) -> (r: u8)
    ensures
        r == spec_extension_value(current, rate),
{
    (current & !(0b11u8 << FSEL0_BIT_POS)) | (rate << FSEL0_BIT_POS)
}

/// The transfers of `current_time`: the seven time registers are read in one
/// transfer and decoded where the bus took it.
pub open spec fn spec_current_time_done(
    o: Seq<I2cTransfer>,
    n: Seq<I2cTransfer>,
    r: Result<CurrentTime, I2CRtcError>,
) -> bool {
    &&& then_transfer(o, n, RX8130CE_I2C_ADDR, seq![REG_SECONDS], 7)
    &&& r == if n.last().3 {
        Ok::<CurrentTime, I2CRtcError>(spec_time_from_registers(n.last().2))
    } else {
        Err(I2CRtcError::I2cReadError)
    }
}

/// The transfers of `set_time`: one write of the time registers.
pub open spec fn spec_set_time_done(
    o: Seq<I2cTransfer>,
    n: Seq<I2cTransfer>,
    time: CurrentTime,
    r: Result<(), I2CRtcError>,
) -> bool {
    &&& then_transfer(o, n, RX8130CE_I2C_ADDR, spec_time_payload(time), 0)
    &&& r == write_result(n.last().3)
}

/// The transfers of `set_tick_period`: none for a frequency the chip lacks;
/// else the extension register is read, and where that went through, written
/// back with the frequency set. A failed read is reported as a write error.
pub open spec fn spec_set_tick_period_done(
    o: Seq<I2cTransfer>,
    n: Seq<I2cTransfer>,
    period_hz: u32,
    r: Result<(), I2CRtcError>,
) -> bool {
    let k = o.len() as int;
    match spec_fout_rate(period_hz) {
        None => n == o && r == Err::<(), I2CRtcError>(I2CRtcError::UnsupportedSetting),
        Some(rate) => {
            &&& n.len() > k
            &&& then_transfer(o, n.subrange(0, k + 1), RX8130CE_I2C_ADDR, seq![EXTANSION_REG], 1)
            &&& !n[k].3 ==> n.len() == k + 1 && r == Err::<(), I2CRtcError>(
                I2CRtcError::I2cWriteError,
            )
            &&& n[k].3 ==> {
                &&& then_transfer(
                    n.subrange(0, k + 1),
                    n,
                    RX8130CE_I2C_ADDR,
                    seq![EXTANSION_REG, spec_extension_value(n[k].2[0], rate)],
                    0,
                )
                &&& r == write_result(n.last().3)
            }
        },
    }
}

/// The transfers of `dump_registers`: the sixteen registers from the first
/// time register on are read in one transfer.
pub open spec fn spec_dump_registers_done(
    o: Seq<I2cTransfer>,
    n: Seq<I2cTransfer>,
    r: Result<(), I2CRtcError>,
) -> bool {
    &&& then_transfer(o, n, RX8130CE_I2C_ADDR, seq![REG_START], REG_COUNT as nat)
    &&& r == if n.last().3 {
        Ok::<(), I2CRtcError>(())
    } else {
        Err(I2CRtcError::I2cReadError)
    }
}

/// The RX-8130CE on a bus.
pub struct Rx8130ce<I2C> {
    i2c: I2C,
}

impl<I2C: I2cBus> Rx8130ce<I2C> {
    /// The transfers made on the chip's bus so far, oldest first.
    pub closed spec fn transfers(&self) -> Seq<I2cTransfer> {
        self.i2c.spec_transfers()
    }

    /// The chip on `i2c`; no transfer is made.
    pub fn new(i2c: I2C) -> (r: Self)
        ensures
            r.transfers() == i2c.spec_transfers(),
    {
        Rx8130ce { i2c }
    }
}

impl<I2C: I2cBus> I2CRtcCtrl for Rx8130ce<I2C> {
    /// The time decoded from seven registers read from the chip.
    fn current_time(&mut self) -> (r: Result<CurrentTime, I2CRtcError>)
        ensures
            spec_current_time_done(old(self).transfers(), final(self).transfers(), r),
    {
        let ghost o = self.i2c.spec_transfers();
        let mut raw: [u8; 7] = [0; 7];
        let reg: [u8; 1] = [REG_SECONDS];
        let res = self.i2c.write_read(RX8130CE_I2C_ADDR, reg.as_slice(), &mut raw);
        proof {
            assert(reg@ =~= seq![REG_SECONDS]);
            assert(self.i2c.spec_transfers().drop_last() =~= o);
        }
        if res.is_err() {
            return Err(I2CRtcError::I2cReadError);
        }
        let t = time_from_registers(&raw);
        Ok(t)
    }

    fn set_time(&mut self, time: CurrentTime) -> (r: Result<(), I2CRtcError>)
        ensures
            spec_set_time_done(old(self).transfers(), final(self).transfers(), time, r),
    {
        let ghost o = self.i2c.spec_transfers();
        let payload = time_payload(&time);
        let res = self.i2c.write(RX8130CE_I2C_ADDR, payload.as_slice());
        proof {
            assert(self.i2c.spec_transfers().drop_last() =~= o);
        }
        if res.is_err() {
            return Err(I2CRtcError::I2cWriteError);
        }
        Ok(())
    }

    /// Unsupported frequencies are refused before the bus is used.
    fn set_tick_period(&mut self, period_hz: u32) -> (r: Result<(), I2CRtcError>)
        ensures
            spec_set_tick_period_done(
                old(self).transfers(),
                final(self).transfers(),
                period_hz,
                r,
            ),
    {
        let ghost o = self.i2c.spec_transfers();
        let rate = match fout_rate(period_hz) {
            Ok(b) => b,
            Err(e) => {
                return Err(e);
            },
        };
        let mut current: [u8; 1] = [0];
        let reg: [u8; 1] = [EXTANSION_REG];
        let first = self.i2c.write_read(RX8130CE_I2C_ADDR, reg.as_slice(), &mut current);
        let ghost t1 = self.i2c.spec_transfers();
        proof {
            assert(t1.subrange(0, o.len() as int + 1) =~= t1);
            assert(t1.drop_last() =~= o);
            assert(reg@ =~= seq![EXTANSION_REG]);
        }
        if first.is_err() {
            return Err(I2CRtcError::I2cWriteError);
        }
        let new_value = extension_value(current[0], rate);
        let msg: [u8; 2] = [EXTANSION_REG, new_value];
        let second = self.i2c.write(RX8130CE_I2C_ADDR, msg.as_slice());
        proof {
            let n = self.i2c.spec_transfers();
            assert(n.subrange(0, o.len() as int + 1) =~= t1);
            assert(n.drop_last() =~= t1);
            assert(msg@ =~= seq![EXTANSION_REG, spec_extension_value(t1.last().2[0], rate)]);
        }
        if second.is_err() {
            return Err(I2CRtcError::I2cWriteError);
        }
        Ok(())
    }

    /// Reads the sixteen registers from the first time register on.
    fn dump_registers(&mut self) -> (r: Result<(), I2CRtcError>)
        ensures
            spec_dump_registers_done(old(self).transfers(), final(self).transfers(), r),
    {
        let ghost o = self.i2c.spec_transfers();
        let mut regs: [u8; REG_COUNT] = [0; REG_COUNT];
        let reg: [u8; 1] = [REG_START];
        let res = self.i2c.write_read(RX8130CE_I2C_ADDR, reg.as_slice(), &mut regs);
        proof {
            assert(reg@ =~= seq![REG_START]);
            assert(self.i2c.spec_transfers().drop_last() =~= o);
        }
        if res.is_err() {
            return Err(I2CRtcError::I2cReadError);
        }
        Ok(())
    }
}

} // verus!
