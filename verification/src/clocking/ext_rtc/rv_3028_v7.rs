//! The RV-3028-C7 real-time clock.

use vstd::prelude::*;

use super::super::{CurrentTime, I2CRtcCtrl, I2CRtcError};
use super::{
    bcd2dec, dec2bcd, sent_only, spec_bcd2dec, spec_dec2bcd, then_transfer, write_result, I2cBus,
    I2cTransfer,
};

verus! {

pub const RV3028V7_I2C_ADDR: u8 = 0x52;

/// First of the seven time registers.
pub const REG_SECONDS: u8 = 0x00;

/// The EEPROM register of the clock output.
pub const EEPROM_CLKOUT_REG: u8 = 0x1C;

/// The EEPROM backup register.
pub const EEPROM_BACKUP_REGISTER_REG: u8 = 0x37;

/// The time in the seven time registers, seconds first; the century is 2000.
pub open spec fn spec_time_from_registers(raw: Seq<u8>) -> CurrentTime {
    CurrentTime {
        year: (2000 + spec_bcd2dec(raw[6] & 0x7F)) as u32,
        month: spec_bcd2dec(raw[5] & 0x1F) as u32,
        day_of_month: spec_bcd2dec(raw[4] & 0x3F) as u32,
        day_of_week: (raw[3] & 0x07) as u32,
        hours: spec_bcd2dec(raw[2] & 0x3F) as u32,
        minutes: spec_bcd2dec(raw[1] & 0x7F) as u32,
        seconds: spec_bcd2dec(raw[0] & 0x7F) as u32,
        milliseconds: 0,
    }
}

pub fn time_from_registers(raw: &[u8; 7]) -> (r: CurrentTime)
    ensures
        r == spec_time_from_registers(raw@),
{
    CurrentTime {
        year: 2000 + bcd2dec(raw[6] & 0x7F) as u32,
        month: bcd2dec(raw[5] & 0x1F) as u32,
        day_of_month: bcd2dec(raw[4] & 0x3F) as u32,
        day_of_week: (raw[3] & 0x07) as u32,
        hours: bcd2dec(raw[2] & 0x3F) as u32,
        minutes: bcd2dec(raw[1] & 0x7F) as u32,
        seconds: bcd2dec(raw[0] & 0x7F) as u32,
        milliseconds: 0,
    }
}

/// The write that sets the time: the first register's address, then the
/// seven registers; each field kept to its low eight bits before coding.
pub open spec fn spec_time_payload(t: CurrentTime) -> Seq<u8> {
    seq![
        REG_SECONDS,
        spec_dec2bcd(t.seconds as u8),
        spec_dec2bcd(t.minutes as u8),
        spec_dec2bcd(t.hours as u8),
        (t.day_of_week as u8) & 0x07,
        spec_dec2bcd(t.day_of_month as u8),
        spec_dec2bcd(t.month as u8),
        spec_dec2bcd((t.year % 100) as u8),
    ]
}

pub fn time_payload(t: &CurrentTime) -> (r: [u8; 8])
    ensures
        r@ == spec_time_payload(*t),
{
    let r: [u8; 8] = [
        REG_SECONDS,
        dec2bcd(t.seconds as u8),
        dec2bcd(t.minutes as u8),
        dec2bcd(t.hours as u8),
        (t.day_of_week as u8) & 0x07,
        dec2bcd(t.day_of_month as u8),
        dec2bcd(t.month as u8),
        dec2bcd((t.year % 100) as u8),
    ];
    proof {
        assert(r@ =~= spec_time_payload(*t));
    }
    r
}

/// The code of a clock output frequency, where the chip has it.
pub open spec fn spec_clkout_rate(hz: u32) -> Option<u8> {
    if hz == 32_768 {
        Some(0b000)
    } else if hz == 8_192 {
        Some(0b001)
    } else if hz == 1_024 {
        Some(0b010)
    } else if hz == 64 {
        Some(0b011)
    } else if hz == 32 {
        Some(0b100)
    } else if hz == 1 {
        Some(0b101)
    } else if hz == 0 {
        Some(0b111)
    } else {
        None
    }
}

pub fn clkout_rate(hz: u32) -> (r: Result<u8, I2CRtcError>)
    ensures
        r == match spec_clkout_rate(hz) {
            Some(b) => Ok::<u8, I2CRtcError>(b),
            None => Err(I2CRtcError::UnsupportedSetting),
        },
{
    match hz {
        32_768 => Ok(0b000),
        8_192 => Ok(0b001),
        1_024 => Ok(0b010),
        64 => Ok(0b011),
        32 => Ok(0b100),
        1 => Ok(0b101),
        0 => Ok(0b111),
        _ => Err(I2CRtcError::UnsupportedSetting),
    }
}

/// The clock-output register with the frequency field (bits 0 to 2) set to
/// `rate` and the output enabled (bit 7); the other bits kept.
pub open spec fn spec_clkout_value(current: u8, rate: u8) -> u8 {
    (current & !0b111u8) | rate | 0x80
}

/// The backup register with the backup switch-over mode (bits 2 and 3) set to
/// level switching and trickle charging (bit 6) off; the other bits kept.
pub open spec fn spec_bsm_value(current: u8) -> u8 {
    (current & !0b1100u8 & !0b0100_0000u8) | 0b1100
}

pub fn clkout_value(current: u8, rate: u8) -> (r: u8)
    ensures
        r == spec_clkout_value(current, rate),
{
    (current & !0b111u8) | rate | 0x80
}

pub fn bsm_value(current: u8) -> (r: u8)
    ensures
        r == spec_bsm_value(current),
{
    (current & !0b1100u8 & !0b0100_0000u8) | 0b1100
}

/// The transfers of `configure_bsm`: the backup register is read, and where
/// that went through, written back with the switch-over mode set.
pub open spec fn spec_configure_bsm_done(
    o: Seq<I2cTransfer>,
    n: Seq<I2cTransfer>,
    r: Result<(), I2CRtcError>,
) -> bool {
    let k = o.len() as int;
    &&& n.len() > k
    &&& then_transfer(o, n.subrange(0, k + 1), RV3028V7_I2C_ADDR, seq![EEPROM_BACKUP_REGISTER_REG], 1)
    &&& !n[k].3 ==> n.len() == k + 1 && r == Err::<(), I2CRtcError>(I2CRtcError::I2cReadError)
    &&& n[k].3 ==> {
        &&& then_transfer(
            n.subrange(0, k + 1),
            n,
            RV3028V7_I2C_ADDR,
            seq![EEPROM_BACKUP_REGISTER_REG, spec_bsm_value(n[k].2[0])],
            0,
        )
        &&& r == write_result(n.last().3)
    }
}

/// The transfers of `current_time`: the seven time registers are read in one
/// transfer and decoded where the bus took it.
pub open spec fn spec_current_time_done(
    o: Seq<I2cTransfer>,
    n: Seq<I2cTransfer>,
    r: Result<CurrentTime, I2CRtcError>,
) -> bool {
    &&& then_transfer(o, n, RV3028V7_I2C_ADDR, seq![REG_SECONDS], 7)
    &&& r == if n.last().3 {
        Ok::<CurrentTime, I2CRtcError>(spec_time_from_registers(n.last().2))
    } else {
        Err(I2CRtcError::I2cReadError)
    }
}

/// The transfers of `set_time`: one write of the time registers.
pub open spec fn spec_set_time_done(
    o: Seq<I2cTransfer>,
    n: Seq<I2cTransfer>,
    time: CurrentTime,
    r: Result<(), I2CRtcError>,
) -> bool {
    &&& then_transfer(o, n, RV3028V7_I2C_ADDR, spec_time_payload(time), 0)
    &&& r == write_result(n.last().3)
}

/// The transfers of `set_tick_period`: none for a frequency the chip lacks;
/// else the clock-output register is addressed, read, and written back with
/// the frequency set, each step only where the one before went through.
pub open spec fn spec_set_tick_period_done(
    o: Seq<I2cTransfer>,
    n: Seq<I2cTransfer>,
    period_hz: u32,
    r: Result<(), I2CRtcError>,
) -> bool {
    let k = o.len() as int;
    match spec_clkout_rate(period_hz) {
        None => n == o && r == Err::<(), I2CRtcError>(I2CRtcError::UnsupportedSetting),
        Some(rate) => {
            &&& n.len() > k
            &&& then_transfer(o, n.subrange(0, k + 1), RV3028V7_I2C_ADDR, seq![EEPROM_CLKOUT_REG], 0)
            &&& !n[k].3 ==> n.len() == k + 1 && r == Err::<(), I2CRtcError>(
                I2CRtcError::I2cWriteError,
            )
            &&& n[k].3 ==> {
                &&& n.len() > k + 1
                &&& then_transfer(
                    n.subrange(0, k + 1),
                    n.subrange(0, k + 2),
                    RV3028V7_I2C_ADDR,
                    Seq::<u8>::empty(),
                    1,
                )
                &&& !n[k + 1].3 ==> n.len() == k + 2 && r == Err::<(), I2CRtcError>(
                    I2CRtcError::I2cReadError,
                )
                &&& n[k + 1].3 ==> {
                    &&& then_transfer(
                        n.subrange(0, k + 2),
                        n,
                        RV3028V7_I2C_ADDR,
                        seq![EEPROM_CLKOUT_REG, spec_clkout_value(n[k + 1].2[0], rate)],
                        0,
                    )
                    &&& r == write_result(n.last().3)
                }
            }
        },
    }
}

/// The RV-3028-C7 on a bus.
pub struct Rv3028v7<I2C> {
    i2c: I2C,
}

impl<I2C: I2cBus> Rv3028v7<I2C> {
    /// The transfers made on the chip's bus so far, oldest first.
    pub closed spec fn transfers(&self) -> Seq<I2cTransfer> {
        self.i2c.spec_transfers()
    }

    /// The chip on `i2c`; no transfer is made.
    pub fn new(i2c: I2C) -> (r: Self)
        ensures
            r.transfers() == i2c.spec_transfers(),
    {
        Rv3028v7 { i2c }
    }
}

impl<I2C: I2cBus> Rv3028v7<I2C> {
    /// Switches the backup supply over by level and turns trickle charging off.
    pub fn configure_bsm(&mut self) -> (r: Result<(), I2CRtcError>)
        ensures
            spec_configure_bsm_done(old(self).transfers(), final(self).transfers(), r),
    {
        let ghost o = self.i2c.spec_transfers();
        let mut current: [u8; 1] = [0];
        let reg: [u8; 1] = [EEPROM_BACKUP_REGISTER_REG];
        let first = self.i2c.write_read(RV3028V7_I2C_ADDR, reg.as_slice(), &mut current);
        let ghost t1 = self.i2c.spec_transfers();
        proof {
            assert(t1.subrange(0, o.len() as int + 1) =~= t1);
            assert(t1.drop_last() =~= o);
            assert(reg@ =~= seq![EEPROM_BACKUP_REGISTER_REG]);
        }
        if first.is_err() {
            return Err(I2CRtcError::I2cReadError);
        }
        let new_value = bsm_value(current[0]);
        let msg: [u8; 2] = [EEPROM_BACKUP_REGISTER_REG, new_value];
        let second = self.i2c.write(RV3028V7_I2C_ADDR, msg.as_slice());
        proof {
            let n = self.i2c.spec_transfers();
            assert(n.subrange(0, o.len() as int + 1) =~= t1);
            assert(n.drop_last() =~= t1);
            assert(msg@ =~= seq![EEPROM_BACKUP_REGISTER_REG, spec_bsm_value(t1.last().2[0])]);
        }
        if second.is_err() {
            return Err(I2CRtcError::I2cWriteError);
        }
        Ok(())
    }

    /// The chip on `i2c`, switched to backup supply by level with trickle
    /// charging off, as `configure_bsm` does it; fails as that fails.
    pub fn try_new(i2c: I2C) -> (r: Result<Self, I2CRtcError>)
        ensures
            r matches Ok(d) ==> spec_configure_bsm_done(
                i2c.spec_transfers(),
                d.transfers(),
                Ok::<(), I2CRtcError>(()),
            ),
            r matches Err(e) ==> exists|n: Seq<I2cTransfer>|
                #[trigger] spec_configure_bsm_done(i2c.spec_transfers(), n, Err::<(), I2CRtcError>(e)),
    {
        let mut res = Rv3028v7::new(i2c);
        match res.configure_bsm() {
            Ok(()) => Ok(res),
            Err(e) => {
                proof {
                    assert(spec_configure_bsm_done(i2c.spec_transfers(), res.transfers(), Err::<(), I2CRtcError>(e)));
                }
                Err(e)
            },
        }
    }
}

impl<I2C: I2cBus> I2CRtcCtrl for Rv3028v7<I2C> {
    /// The time decoded from seven registers read from the chip.
    fn current_time(&mut self) -> (r: Result<CurrentTime, I2CRtcError>)
        ensures
            spec_current_time_done(old(self).transfers(), final(self).transfers(), r),
    {
        let ghost o = self.i2c.spec_transfers();
        let mut raw: [u8; 7] = [0; 7];
        let reg: [u8; 1] = [REG_SECONDS];
        let res = self.i2c.write_read(RV3028V7_I2C_ADDR, reg.as_slice(), &mut raw);
        proof {
            assert(reg@ =~= seq![REG_SECONDS]);
            assert(self.i2c.spec_transfers().drop_last() =~= o);
        }
        if res.is_err() {
            return Err(I2CRtcError::I2cReadError);
        }
        let t = time_from_registers(&raw);
        Ok(t)
    }

    fn set_time(&mut self, time: CurrentTime) -> (r: Result<(), I2CRtcError>)
        ensures
            spec_set_time_done(old(self).transfers(), final(self).transfers(), time, r),
    {
        let ghost o = self.i2c.spec_transfers();
        let payload = time_payload(&time);
        let res = self.i2c.write(RV3028V7_I2C_ADDR, payload.as_slice());
        proof {
            assert(self.i2c.spec_transfers().drop_last() =~= o);
        }
        if res.is_err() {
            return Err(I2CRtcError::I2cWriteError);
        }
        Ok(())
    }

    /// Unsupported frequencies are refused before the bus is used.
    fn set_tick_period(&mut self, period_hz: u32) -> (r: Result<(), I2CRtcError>)
        ensures
            spec_set_tick_period_done(
                old(self).transfers(),
                final(self).transfers(),
                period_hz,
                r,
            ),
    {
        let ghost o = self.i2c.spec_transfers();
        let rate = match clkout_rate(period_hz) {
            Ok(b) => b,
            Err(e) => {
                return Err(e);
            },
        };
        let reg: [u8; 1] = [EEPROM_CLKOUT_REG];
        let first = self.i2c.write(RV3028V7_I2C_ADDR, reg.as_slice());
        let ghost t1 = self.i2c.spec_transfers();
        proof {
            assert(t1.subrange(0, o.len() as int + 1) =~= t1);
            assert(t1.drop_last() =~= o);
            assert(reg@ =~= seq![EEPROM_CLKOUT_REG]);
        }
        if first.is_err() {
            return Err(I2CRtcError::I2cWriteError);
        }
        let mut current: [u8; 1] = [0];
        let second = self.i2c.read(RV3028V7_I2C_ADDR, &mut current);
        let ghost t2 = self.i2c.spec_transfers();
        proof {
            assert(t2.subrange(0, o.len() as int + 1) =~= t1);
            assert(t2.subrange(0, o.len() as int + 2) =~= t2);
            assert(t2.drop_last() =~= t1);
        }
        if second.is_err() {
            return Err(I2CRtcError::I2cReadError);
        }
        let new_value = clkout_value(current[0], rate);
        let msg: [u8; 2] = [EEPROM_CLKOUT_REG, new_value];
        let third = self.i2c.write(RV3028V7_I2C_ADDR, msg.as_slice());
        proof {
            let n = self.i2c.spec_transfers();
            assert(n.subrange(0, o.len() as int + 1) =~= t1);
            assert(n.subrange(0, o.len() as int + 2) =~= t2);
            assert(n.drop_last() =~= t2);
            assert(msg@ =~= seq![EEPROM_CLKOUT_REG, spec_clkout_value(t2.last().2[0], rate)]);
        }
        if third.is_err() {
            return Err(I2CRtcError::I2cWriteError);
        }
        Ok(())
    }
}

} // verus!
