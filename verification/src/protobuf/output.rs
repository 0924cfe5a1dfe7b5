use vstd::prelude::*;

use super::messages::{FreqmeterResult, OutputReq, OutputResponse};

verus! {

/// The measured values as the protocol reports them: single precision values by
/// their bits, taken from the measurement state by its owner.
#[derive(Debug, Clone, Copy, PartialEq, Eq, Structural)]
pub struct OutputSnapshot {
    /// The pressure channel has a frequency.
    pub pressure_frequency_present: bool,
    /// The temperature channel has a frequency.
    pub temperature_frequency_present: bool,
    pub pressure: u32,
    pub temperature: u32,
    pub tcpu: u32,
    pub vbat: u32,
    pub fp: u32,
    pub ft: u32,
    pub freq_timestamp: u64,
    pub p_target: u32,
    pub p_result: u32,
    pub t_target: u32,
    pub t_result: u32,
    pub tcpu_adc: u32,
    pub vbat_adc: u32,
}

/// Where the request handling takes the measured values from, when it needs them.
pub trait OutputGetter {
    fn get_output(&mut self) -> OutputSnapshot;
}

/// The output report after `fill_output`: each group asked for is filled from the
/// snapshot, the others stay as they were.
pub open spec fn output_filled(
    old: OutputResponse,
    new: OutputResponse,
    req: OutputReq,
    o: OutputSnapshot,
) -> bool {
    &&& if req.get_main_values is Some {
        &&& new.pressure == Some(o.pressure)
        &&& new.temperature == Some(o.temperature)
        &&& new.tcpu == Some(o.tcpu)
        &&& new.vbat == Some(o.vbat)
    } else {
        &&& new.pressure == old.pressure
        &&& new.temperature == old.temperature
        &&& new.tcpu == old.tcpu
        &&& new.vbat == old.vbat
    }
    &&& if req.get_f is Some {
        &&& new.fp == Some(o.fp)
        &&& new.ft == Some(o.ft)
        &&& new.ftimestamp == Some(o.freq_timestamp)
    } else {
        &&& new.fp == old.fp
        &&& new.ft == old.ft
        &&& new.ftimestamp == old.ftimestamp
    }
    &&& if req.get_raw is Some {
        &&& new.p_result == Some(FreqmeterResult { target: o.p_target, result: o.p_result })
        &&& new.t_result == Some(FreqmeterResult { target: o.t_target, result: o.t_result })
        &&& new.adc_tcpu == Some(o.tcpu_adc)
        &&& new.adc_vbat == Some(o.vbat_adc)
    } else {
        &&& new.p_result == old.p_result
        &&& new.t_result == old.t_result
        &&& new.adc_tcpu == old.adc_tcpu
        &&& new.adc_vbat == old.adc_vbat
    }
}

/// Fills the groups of output values the host asks for.
pub fn fill_output(output: &mut OutputResponse, req: &OutputReq, output_storage: &OutputSnapshot)
    ensures
        output_filled(*old(output), *final(output), *req, *output_storage),
        req.get_main_values is Some ==> final(output).tcpu == Some(output_storage.tcpu)
            && final(output).vbat == Some(output_storage.vbat) && final(output).pressure == Some(
            output_storage.pressure,
        ) && final(output).temperature == Some(output_storage.temperature),
        req.get_f is Some ==> final(output).fp == Some(output_storage.fp) && final(output).ft
            == Some(output_storage.ft),
{
    if req.get_main_values.is_some() {
        output.pressure = Some(output_storage.pressure);
        output.temperature = Some(output_storage.temperature);
        output.tcpu = Some(output_storage.tcpu);
        output.vbat = Some(output_storage.vbat);
    }
    if req.get_f.is_some() {
        output.fp = Some(output_storage.fp);
        output.ft = Some(output_storage.ft);
        output.ftimestamp = Some(output_storage.freq_timestamp);
    }
    if req.get_raw.is_some() {
        output.p_result = Some(
            FreqmeterResult { target: output_storage.p_target, result: output_storage.p_result },
        );
        output.t_result = Some(
            FreqmeterResult { target: output_storage.t_target, result: output_storage.t_result },
        );
        output.adc_tcpu = Some(output_storage.tcpu_adc);
        output.adc_vbat = Some(output_storage.vbat_adc);
    }
}

} // verus!
