use vstd::prelude::*;
use crate::hw_buttons::{Key, spec_notification_path};

verus! {

/// Settings of the lock button handling: how long a press must last to count
/// as a long press.
#[derive(Clone, Copy, Debug)]
pub struct LockButtonSettings {
    pub min_time_long_press: u64,
}

/// A button event a handler has taken in: the key it came from and the event.
pub struct ButtonReport<E> {
    pub key: Key,
    pub event: E,
}

/// The desktop server's handler of the volume buttons. `pressed_at` is the
/// monotonic time, in milliseconds, at which the button in hand was pressed.
pub struct VolButtonHandler {
    pressed_at: Option<u64>,
    configs: LockButtonSettings,
}

/// The paths of the volume-up and volume-down notifications the handlers
/// listen to.
pub open spec fn spec_volume_subscriptions() -> (Seq<char>, Seq<char>) {
    ("/org/mechanix/services/HwButton/VolumeUp"@, "/org/mechanix/services/HwButton/VolumeDown"@)
}

/// The paths of the volume-up and volume-down notifications the handlers
/// listen to.
pub fn volume_subscriptions() -> (paths: (&'static str, &'static str))
    ensures
        (paths.0@, paths.1@) == spec_volume_subscriptions(),
{
    ("/org/mechanix/services/HwButton/VolumeUp", "/org/mechanix/services/HwButton/VolumeDown")
}

/// The volume handlers listen on exactly the paths on which the volume keys'
/// notifications are published.
pub proof fn lemma_volume_subscriptions_match_publisher()
    ensures
        spec_volume_subscriptions().0 == spec_notification_path(Key::VolumeUp),
        spec_volume_subscriptions().1 == spec_notification_path(Key::VolumeDown),
{
}

/// What a handler takes in from one item of a notification stream of `key`:
/// the event of a signal whose arguments could be read; nothing for the end
/// of the stream or for a signal whose arguments could not be read.
pub open spec fn spec_signal_report<E, X>(key: Key, signal: Option<Result<E, X>>) -> Option<ButtonReport<E>> {
    match signal {
        Some(Ok(event)) => Some(ButtonReport { key, event }),
        _ => None,
    }
}

/// A readable signal of the notification stream of `key` is reported under
/// that very key with that very event, so the streams of two different keys
/// are never confused; the end of a stream, or an unreadable signal, reports
/// nothing.
pub proof fn lemma_report_carries_its_stream<E, X>(key: Key, other: Key, event: E, err: X)
    ensures
        spec_signal_report::<E, X>(key, Some(Ok(event))) matches Some(r) && r.key == key && r.event == event,
        key != other ==> spec_signal_report::<E, X>(key, Some(Ok(event)))
            != spec_signal_report::<E, X>(other, Some(Ok(event))),
        spec_signal_report::<E, X>(key, Some(Err(err))) is None,
        spec_signal_report::<E, X>(key, None) is None,
{
}


impl VolButtonHandler {
    /// When the button in hand was pressed, if one is.
    pub closed spec fn pressed_at(self) -> Option<u64> {
        self.pressed_at
    }

    /// The settings the handler works with.
    pub closed spec fn configs(self) -> LockButtonSettings {
        self.configs
    }

    /// A handler with the settings `configs` and no button in hand.
    pub fn new(configs: LockButtonSettings) -> (h: Self)
        ensures
            h.pressed_at() is None,
            h.configs() == configs,
    {
        Self { pressed_at: None, configs }
    }

    /// Handles one item of the notification stream of `key`: the report it
    /// yields; the handler's state stays as it is.
    pub fn handle_signal<E, X>(&self, key: Key, signal: Option<Result<E, X>>) -> (res: Option<ButtonReport<E>>)
        ensures
            res == spec_signal_report(key, signal),
    {
        match signal {
            Some(Ok(event)) => Some(ButtonReport { key, event }),
            _ => None,
        }
    }
}

} // verus!
