use vstd::prelude::*;

use super::messages::InfoResponse;
use super::output::OutputSnapshot;
use super::process_settings::DeviceConstants;
use crate::app_settings::{AppSettings, NonStoreSettings};

verus! {

/// Version of the hardware.
pub const HW_VERSION: u32 = 1;

/// The device information for the settings `s` and the measurement snapshot `o`.
pub open spec fn info_reported(
    info: InfoResponse,
    o: OutputSnapshot,
    s: (AppSettings, NonStoreSettings),
    c: DeviceConstants,
) -> bool {
    info == InfoResponse {
        hw_version: HW_VERSION,
        sw_version: c.sw_version,
        pressure_channel_failed: !o.pressure_frequency_present,
        temperature_channel_failed: !o.temperature_frequency_present,
        overpress_detected: s.0.monitoring.Ovarpress,
        overheat_detected: s.0.monitoring.Ovarheat,
        overheat_cpu_detected: s.0.monitoring.CPUOvarheat,
        over_vbat_detected: s.0.monitoring.OverPower,
    }
}

/// Fills the device information: versions, failed channels, raised monitoring flags.
pub fn fill_info(
    info: &mut InfoResponse,
    output_data: &OutputSnapshot,
    s: &(AppSettings, NonStoreSettings),
    c: DeviceConstants,
)
    ensures
        info_reported(*final(info), *output_data, *s, c),
{
    info.hw_version = HW_VERSION;
    info.sw_version = c.sw_version;
    info.pressure_channel_failed = !output_data.pressure_frequency_present;
    info.temperature_channel_failed = !output_data.temperature_frequency_present;
    info.overpress_detected = s.0.monitoring.Ovarpress;
    info.overheat_detected = s.0.monitoring.Ovarheat;
    info.overheat_cpu_detected = s.0.monitoring.CPUOvarheat;
    info.over_vbat_detected = s.0.monitoring.OverPower;
}

} // verus!
