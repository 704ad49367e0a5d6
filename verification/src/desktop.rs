//! Desktop-side records and choices: notification settings, onboarding
//! status, and how a folder or URL is opened on each platform.
use vstd::prelude::*;

use crate::config::opt_view;

verus! {

/// Notification settings.
#[derive(Debug, Clone, Copy)]
pub struct NotificationSettings {
    pub recording_notifications: bool,
    pub time_based_reminders: bool,
    pub meeting_reminders: bool,
    pub respect_do_not_disturb: bool,
    pub notification_sound: bool,
    pub system_permission_granted: bool,
}

/// The notification manager; notifications are not shown.
#[derive(Debug, Clone, Copy)]
pub struct NotificationManager;

/// The notification settings in force: every kind of notification on, and
/// no system permission granted.
pub fn get_notification_settings() -> (s: NotificationSettings)
    ensures
        s.recording_notifications,
        s.time_based_reminders,
        s.meeting_reminders,
        s.respect_do_not_disturb,
        s.notification_sound,
        !s.system_permission_granted,
{
    NotificationSettings {
        recording_notifications: true,
        time_based_reminders: true,
        meeting_reminders: true,
        respect_do_not_disturb: true,
        notification_sound: true,
        system_permission_granted: false,
    }
}

/// How far onboarding has come.
#[derive(Debug, Clone)]
pub struct OnboardingStatus {
    pub completed: bool,
    pub step: Option<String>,
}

/// The onboarding status: completed, with no pending step.
pub fn load_onboarding_status() -> (s: OnboardingStatus)
    ensures
        s.completed,
        s.step is None,
{
    OnboardingStatus { completed: true, step: None }
}

/// The platforms that a folder or URL can be opened on.
#[derive(Debug, Clone, Copy, PartialEq, Eq, Structural)]
pub enum Platform {
    MacOs,
    Windows,
    Linux,
    Other,
}

pub open spec fn opener_for(p: Platform) -> Option<Seq<char>> {
    match p {
        Platform::MacOs => Some("open"@),
        Platform::Windows => Some("explorer"@),
        Platform::Linux => Some("xdg-open"@),
        Platform::Other => None,
    }
}

/// The program that opens a folder or URL on `p`, if there is one.
pub fn opener_program(p: Platform) -> (r: Option<String>)
    ensures
        opt_view(r) == opener_for(p),
{
    match p {
        Platform::MacOs => Some(String::from_str("open")),
        Platform::Windows => Some(String::from_str("explorer")),
        Platform::Linux => Some(String::from_str("xdg-open")),
        Platform::Other => None,
    }
}

/// The folder to open for a meeting, given the folder path that the meeting
/// was found with (`None` when the meeting was not found).
pub fn folder_to_open(found: &Option<Option<String>>) -> (r: Option<String>)
    ensures
        *found matches Some(Some(f)) ==> opt_view(r) == Some(f@),
        !(*found matches Some(Some(_))) ==> r is None,
{
    match found {
        Some(Some(f)) => Some(f.clone()),
        _ => None,
    }
}

} // verus!
