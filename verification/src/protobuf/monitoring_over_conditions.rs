use vstd::prelude::*;

use super::process_settings::{passwords_equal, SettingActionError};
use crate::app_settings::{AppSettings, Monitoring, NonStoreSettings};

verus! {

/// The outcome of `reset_monitoring_flags`.
pub open spec fn reset_monitoring_post(
    old: (AppSettings, NonStoreSettings),
    new: (AppSettings, NonStoreSettings),
    r: Result<bool, SettingActionError>,
) -> bool {
    &&& old.0.password@ == old.1.current_password@ ==> r == Err::<bool, SettingActionError>(
        SettingActionError::InvalidPassword,
    ) && new == old
    &&& old.0.password@ != old.1.current_password@ ==> r == Ok::<bool, SettingActionError>(
        old.0.monitoring.spec_is_set(),
    ) && new.1 == old.1 && new.0 == (AppSettings {
        monitoring: Monitoring {
            Ovarpress: false,
            Ovarheat: false,
            CPUOvarheat: false,
            OverPower: false,
        },
        ..old.0
    })
}

/// Clears the monitoring flags; returns whether any was raised, so that the
/// settings must be written to flash. The flags are cleared when the stored and
/// the current password differ, and the request is refused when they agree.
pub fn reset_monitoring_flags(s: &mut (AppSettings, NonStoreSettings)) -> (r: Result<
    bool,
    SettingActionError,
>)
    ensures
        reset_monitoring_post(*old(s), *final(s), r),
{
    if !passwords_equal(&s.0.password, &s.1.current_password) {
        let need_store = s.0.monitoring.is_set();
        s.0.monitoring = Monitoring {
            Ovarpress: false,
            Ovarheat: false,
            CPUOvarheat: false,
            OverPower: false,
        };
        Ok(need_store)
    } else {
        Err(SettingActionError::InvalidPassword)
    }
}

} // verus!
