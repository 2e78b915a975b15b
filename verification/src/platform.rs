use vstd::prelude::*;

use crate::platform::wifi::WifiState;

pub mod dac;
pub mod net;
pub mod wifi;

verus! {

/// Name of the task that handles platform events.
pub const PLATFORM_TASK_NAME: &'static str = "bark::platform";

/// Event bit: the state of the wifi link has changed.
pub const PLATFORM_EVENT_WIFI: u32 = 1;

/// What the platform task does about the application when the state of the
/// wifi link has changed.
#[derive(Clone, Copy, Debug, PartialEq, Eq, Structural)]
pub enum AppControl {
    /// The link is up: start the application.
    Start,
    /// The link has gone: stop the application.
    Stop,
    /// Leave the application as it is.
    Keep,
}

/// Whether the events that the platform task was woken for hold a change of
/// the wifi link.
pub fn has_wifi_event(events: u32) -> (has: bool)
    ensures
        has == (events & PLATFORM_EVENT_WIFI != 0),
{
    events & PLATFORM_EVENT_WIFI != 0
}

/// What a change of the wifi link to `state` means for the application.
pub fn on_wifi_event(state: WifiState) -> (control: AppControl)
    ensures
        control == match state {
            WifiState::Online => AppControl::Start,
            WifiState::Disconnected => AppControl::Stop,
            _ => AppControl::Keep,
        },
{
    match state {
        WifiState::Online => AppControl::Start,
        WifiState::Disconnected => AppControl::Stop,
        _ => AppControl::Keep,
    }
}

} // verus!
