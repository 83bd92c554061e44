//! Durable feature flags and their toggle operations.
//!
//! The flags live in a JSON settings file owned by the surrounding
//! application; this module holds the in-memory state and its rules.
//! The caller persists the returned state after every change.

use vstd::prelude::*;
use vstd::string::StringExecFns;
use crate::keys::VaultError;

verus! {

/// The three independent feature flags of the capture pipeline.
/// Each defaults to `false` on first read.
pub struct FeatureFlags {
    pub encryption_enabled: bool,
    pub periodic_capture_enabled: bool,
    pub click_event_enabled: bool,
}

impl FeatureFlags {
    /// The state persisted on first read when no settings file exists yet:
    /// every feature is off.
    pub fn new() -> (r: FeatureFlags)
        ensures
            !r.encryption_enabled,
            !r.periodic_capture_enabled,
            !r.click_event_enabled,
    {
        FeatureFlags {
            encryption_enabled: false,
            periodic_capture_enabled: false,
            click_event_enabled: false,
        }
    }
}

/// Reads the periodic-capture flag.
pub fn is_periodic_capture_enabled(flags: &FeatureFlags) -> (r: bool)
    ensures
        r == flags.periodic_capture_enabled,
{
    flags.periodic_capture_enabled
}

/// Reads the encryption flag.
pub fn is_encryption_enabled(flags: &FeatureFlags) -> (r: bool)
    ensures
        r == flags.encryption_enabled,
{
    flags.encryption_enabled
}

/// Reads the click-capture flag.
pub fn is_click_event_enabled(flags: &FeatureFlags) -> (r: bool)
    ensures
        r == flags.click_event_enabled,
{
    flags.click_event_enabled
}

/// Sets the periodic-capture flag and reports the new state; the caller
/// persists the updated flags.  Only this flag changes.
pub fn toggle_periodic_capture(flags: &mut FeatureFlags, enable: bool) -> (r: Result<bool, VaultError>)
    ensures
        final(flags).periodic_capture_enabled == enable,
        final(flags).encryption_enabled == old(flags).encryption_enabled,
        final(flags).click_event_enabled == old(flags).click_event_enabled,
        r == Ok::<bool, VaultError>(enable),
{
    flags.periodic_capture_enabled = enable;
    Ok(enable)
}

/// Sets the click-capture flag and reports the new state; the caller
/// persists the updated flags.  Only this flag changes.
pub fn toggle_click_event(flags: &mut FeatureFlags, enable: bool) -> (r: Result<bool, VaultError>)
    ensures
        final(flags).click_event_enabled == enable,
        final(flags).encryption_enabled == old(flags).encryption_enabled,
        final(flags).periodic_capture_enabled == old(flags).periodic_capture_enabled,
        r == Ok::<bool, VaultError>(enable),
{
    flags.click_event_enabled = enable;
    Ok(enable)
}

/// The settings file sits directly under the application data directory.
pub fn get_config_path(app_data_dir: &str) -> (r: String)
    ensures
        r@ == app_data_dir@ + "/config.json"@,
{
    let mut path = String::from_str(app_data_dir);
    path.append("/config.json");
    path
}

} // verus!
