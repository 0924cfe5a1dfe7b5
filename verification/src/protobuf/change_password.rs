use vstd::prelude::*;

use super::messages::ChangePassword;
use super::process_settings::{
    copy_password, passwords_equal, spec_password_bytes, SettingActionError,
};
use crate::app_settings::{AppSettings, NonStoreSettings, PASSWORD_SIZE};

verus! {

/// The outcome of `change_password` for the new password bytes `np`.
pub open spec fn change_password_post(
    old: (AppSettings, NonStoreSettings),
    new: (AppSettings, NonStoreSettings),
    np: Seq<u8>,
    r: Result<bool, SettingActionError>,
) -> bool {
    &&& old.0.password@ != old.1.current_password@ ==> r == Err::<bool, SettingActionError>(
        SettingActionError::InvalidPassword,
    ) && new == old
    &&& old.0.password@ == old.1.current_password@ && old.1.current_password@
        == spec_password_bytes(np) ==> r == Ok::<bool, SettingActionError>(false) && new == old
    &&& old.0.password@ == old.1.current_password@ && old.1.current_password@
        != spec_password_bytes(np) ==> r == Ok::<bool, SettingActionError>(true) && new.0 == (
    AppSettings { password: new.0.password, ..old.0 }) && new.0.password@ == spec_password_bytes(
        np,
    ) && new.1.current_password@ == spec_password_bytes(np)
}

/// Replaces the password. Refused when the stored and the current password
/// differ; returns whether anything changed, so that the settings must be
/// written to flash.
pub fn change_password(cmd: &ChangePassword, s: &mut (AppSettings, NonStoreSettings)) -> (r: Result<
    bool,
    SettingActionError,
>)
    requires
        cmd.new_password@.len() <= PASSWORD_SIZE,
    ensures
        change_password_post(*old(s), *final(s), cmd.new_password@, r),
{
    let mut pass = [0u8; 10];
    copy_password(&mut pass, cmd.new_password.as_slice());
    if !passwords_equal(&s.0.password, &s.1.current_password) {
        return Err(SettingActionError::InvalidPassword);
    }
    if passwords_equal(&s.1.current_password, &pass) {
        return Ok(false);
    }
    s.0.password = pass;
    s.1.current_password = pass;
    Ok(true)
}

} // verus!
