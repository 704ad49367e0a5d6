//! The Audio Capture permission that system-audio recording needs.
//!
//! There is no public API that tells whether the permission is granted: the
//! system shows its dialog when a capture tap is created, and a denied
//! permission shows as silence in the captured stream, which the recorder
//! detects. So the permission is taken as granted here.
use vstd::prelude::*;

verus! {

/// Why the permission could not be requested.
#[derive(Debug)]
pub enum PermissionError {
    /// The system settings could not be opened; the error, as text.
    SettingsUnavailable(String),
}

/// Whether the Audio Capture permission may be taken as granted: always,
/// since a denied permission is detected from the silence it causes.
pub fn check_screen_recording_permission() -> (granted: bool)
    ensures
        granted,
{
    true
}

/// Requests the permission where the platform needs no request: nothing to do.
pub fn request_screen_recording_permission() -> (r: Result<(), PermissionError>)
    ensures
        r is Ok,
{
    Ok(())
}

/// Checks the permission and requests it when it is not granted; true when
/// it is granted now. A request only takes effect after a restart.
pub fn ensure_screen_recording_permission() -> (granted: bool)
    ensures
        granted,
{
    if check_screen_recording_permission() {
        return true;
    }
    match request_screen_recording_permission() {
        Ok(()) => false,
        Err(_) => false,
    }
}

/// Triggers the system-audio permission request where the platform needs
/// none: the permission counts as granted.
pub fn trigger_system_audio_permission() -> (r: Result<bool, PermissionError>)
    ensures
        r matches Ok(granted) && granted,
{
    Ok(true)
}

/// Whether system-audio capture is permitted, judged by an attempt to create
/// a Core Audio capture tap (which raises the system's permission dialog):
/// granted exactly when the tap could be created. A tap that fails, for a
/// denied permission or any other reason, counts as not granted.
pub fn system_audio_permission_from_tap(tap: &Result<(), String>) -> (r: Result<
    bool,
    PermissionError,
>)
    ensures
        r matches Ok(granted) && granted == (tap is Ok),
{
    match tap {
        Ok(()) => Ok(true),
        Err(_) => Ok(false),
    }
}

} // verus!
