use self_writer::clocking::ext_rtc::{bcd2dec, dec2bcd};
use self_writer::clocking::ext_rtc::rv_3028_v7;
use self_writer::clocking::ext_rtc::rx8130ce;
use self_writer::clocking::high_performance_clocking::{to_pll_devider, to_sai_divider, PllDivider};
use self_writer::clocking::recorder_clocking::{
    ClockSecuritySystem, CrystalBypass, MyCFGR, RecorderClockConfigProvider,
};
use self_writer::clocking::rtc::{calibration_output_1hz, rtc_clock_hz, wakeup_ticks, RtcClockSource};
use self_writer::clocking::{CurrentTime, I2CRtcError, RtcCalibrationOutputPin};
use self_writer::scsi::mode_parameter::{
    CachingModePage, FormatingCapacities, ModeParameterHeader10, ModeParameterHeader6, PageCode,
};

#[test]
fn mode_sense_headers() {
    let mut h = ModeParameterHeader6::default();
    assert_eq!(h.mode_data_length, 3);
    h.increase_length_for_page(PageCode::CachingModePage);
    assert_eq!(h.mode_data_length, 23);
    assert_eq!(h.pack(), vec![23, 0, 0, 0]);
    let mut h10 = ModeParameterHeader10::default();
    assert_eq!(h10.mode_data_length, 6);
    h10.increase_length_for_page(PageCode::CachingModePage);
    h10.device_specific_parameter.write_protect = true;
    assert_eq!(h10.pack(), vec![0, 26, 0, 0x80, 0, 0, 0, 0]);
    let page = CachingModePage::default();
    assert_eq!(page.page_length, 0x12);
    assert_eq!(page.page_ode.code(), 0x08);
}

#[test]
fn formatting_capacities_list() {
    let f = FormatingCapacities::new(1000, 512);
    assert_eq!(f.list_length, 9);
    assert_eq!(f.descriptor.number_of_blocks, 1000);
    assert_eq!(f.descriptor.block_length, 512);
    assert_eq!(f.descriptor.descriptor_type, 0b10);
}

#[test]
fn bcd_codes() {
    assert_eq!(dec2bcd(59), 0x59);
    assert_eq!(bcd2dec(0x59), 59);
    for v in 0u8..100 {
        assert_eq!(bcd2dec(dec2bcd(v)), v);
    }
}

#[test]
fn weekday_masks() {
    assert_eq!(rx8130ce::weekday_number_to_mask(1), 0x01);
    assert_eq!(rx8130ce::weekday_number_to_mask(7), 0x40);
    assert_eq!(rx8130ce::weekday_number_to_mask(0), 0);
    assert_eq!(rx8130ce::weekday_mask_to_number(0x40), 7);
    assert_eq!(rx8130ce::weekday_mask_to_number(0), 0);
    for d in 1u8..=7 {
        assert_eq!(rx8130ce::weekday_mask_to_number(rx8130ce::weekday_number_to_mask(d)), d);
    }
}

fn time() -> CurrentTime {
    CurrentTime {
        year: 2024,
        month: 3,
        day_of_month: 15,
        day_of_week: 5,
        hours: 13,
        minutes: 45,
        seconds: 30,
        milliseconds: 0,
    }
}

#[test]
fn rtc_registers_round_trip() {
    let t = time();
    let p = rv_3028_v7::time_payload(&t);
    assert_eq!(p, [0x00, 0x30, 0x45, 0x13, 5, 0x15, 0x03, 0x24]);
    let mut raw = [0u8; 7];
    raw.copy_from_slice(&p[1..]);
    assert_eq!(rv_3028_v7::time_from_registers(&raw), t);
    let q = rx8130ce::time_payload(&t);
    assert_eq!(q, [0x10, 0x30, 0x45, 0x13, 0x10, 0x15, 0x03, 0x24]);
    raw.copy_from_slice(&q[1..]);
    assert_eq!(rx8130ce::time_from_registers(&raw), t);
}

#[test]
fn clock_output_codes() {
    assert_eq!(rv_3028_v7::clkout_rate(1024), Ok(0b010));
    assert_eq!(rv_3028_v7::clkout_rate(100), Err(I2CRtcError::UnsupportedSetting));
    assert_eq!(rv_3028_v7::clkout_value(0b0101_1010, 0b101), 0b1101_1101);
    assert_eq!(rv_3028_v7::bsm_value(0b0100_0001), 0b0000_1101);
    assert_eq!(rx8130ce::fout_rate(1), Ok(0b10));
    assert_eq!(rx8130ce::fout_rate(64), Err(I2CRtcError::UnsupportedSetting));
    assert_eq!(rx8130ce::extension_value(0b1111_1111, 0b01), 0b0111_1111);
}

#[test]
fn timestamp_counts_years_and_months() {
    let t = CurrentTime {
        year: 1971,
        month: 0,
        day_of_month: 1,
        day_of_week: 0,
        hours: 0,
        minutes: 0,
        seconds: 1,
        milliseconds: 5,
    };
    assert_eq!(t.to_timestamp_ms(), 365 * 86_400_000 + 1005);
    let leap = CurrentTime { year: 2000, month: 2, ..t };
    let days_2000 = 30 * 365 + 7 + 31 + 29;
    assert_eq!(leap.to_timestamp_ms(), days_2000 * 86_400_000 + 1005);
}

#[test]
fn dividers() {
    assert_eq!(to_sai_divider(2), 0b00);
    assert_eq!(to_sai_divider(16), 0b11);
    assert_eq!(to_pll_devider(6), PllDivider::Div6);
}

#[test]
fn recorder_frequencies() {
    type P = RecorderClockConfigProvider<12_000_000, 3_000_000, 2, 1>;
    assert_eq!(P::core_frequency(), 3_000_000);
    assert_eq!(P::apb1_frequency(), 1_500_000);
    assert_eq!(P::master_counter_frequency(), 3_000_000);
}

#[test]
fn clock_plan_prescalers() {
    let c = MyCFGR::new()
        .hse(12_000_000, CrystalBypass::Disable, ClockSecuritySystem::Enable)
        .sysclk(12_000_000)
        .hclk(3_000_000)
        .pclk1(1_000_000)
        .pclk2(3_000_000);
    let p = c.freeze();
    assert_eq!(p.hpre_bits, 0b1001);
    assert_eq!(p.hclk, 3_000_000);
    assert_eq!(p.ppre1_bits, 0b101);
    assert_eq!(p.pclk1, 750_000);
    assert_eq!(p.ppre2, 1);
    assert_eq!(p.pclk2, 3_000_000);
    assert_eq!(p.latency, 0);
    let fast = MyCFGR::new().sysclk(80_000_000).freeze();
    assert_eq!(fast.hclk, 80_000_000);
    assert_eq!(fast.latency, 0b100);
}

#[test]
fn wakeup_and_calibration() {
    assert_eq!(rtc_clock_hz(RtcClockSource::LSE), 32_768);
    // 1000 ms at 2048 Hz
    assert_eq!(wakeup_ticks(1000, 32_768), 2048);
    assert_eq!(wakeup_ticks(0, 32_000), 2);
    assert_eq!(wakeup_ticks(u32::MAX, 32_768), 65_536);
    assert_eq!(calibration_output_1hz(512), Ok(false));
    assert_eq!(calibration_output_1hz(2), Ok(true));
    assert_eq!(calibration_output_1hz(1), Err(()));
    assert!(RtcCalibrationOutputPin::new(true).is_remap());
}
