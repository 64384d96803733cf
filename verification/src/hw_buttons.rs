use vstd::prelude::*;

verus! {

/// A hardware key reported by the button devices.
#[derive(Clone, Copy, Debug, PartialEq, Eq, Structural)]
pub enum Key {
    Power,
    Home,
    VolumeUp,
    VolumeDown,
}

/// The D-Bus object that publishes hardware-button notifications.
#[derive(Clone, Copy, Debug)]
pub struct HwButtonInterface {}

/// The object path on which the notifications of `key` are published.
pub open spec fn spec_notification_path(key: Key) -> Seq<char> {
    match key {
        Key::Power => "/org/mechanix/services/HwButton/Power"@,
        Key::Home => "/org/mechanix/services/HwButton/Home"@,
        Key::VolumeUp => "/org/mechanix/services/HwButton/VolumeUp"@,
        Key::VolumeDown => "/org/mechanix/services/HwButton/VolumeDown"@,
    }
}

/// The object path on which the notifications of `key` are published.
pub fn notification_path(key: Key) -> (path: &'static str)
    ensures
        path@ == spec_notification_path(key),
{
    match key {
        Key::Power => "/org/mechanix/services/HwButton/Power",
        Key::Home => "/org/mechanix/services/HwButton/Home",
        Key::VolumeUp => "/org/mechanix/services/HwButton/VolumeUp",
        Key::VolumeDown => "/org/mechanix/services/HwButton/VolumeDown",
    }
}

/// A notification to emit: the event of a key on the path of that key.
pub struct Notification<E> {
    pub path: &'static str,
    pub event: E,
}

/// One polled reading of the button device dedicated to `device`: the device
/// reported `key` with `event`. A reading is forwarded, on the path of the
/// device, only when the reported key is the device's own key.
pub fn route_button_event<E>(device: Key, key: Key, event: E) -> (res: Option<Notification<E>>)
    ensures
        key != device ==> res is None,
        key == device ==> (res matches Some(n) && n.path@ == spec_notification_path(device)
            && n.event == event),
{
    if key == device {
        Some(Notification { path: notification_path(device), event })
    } else {
        None
    }
}

/// Two different keys are published on two different paths.
pub proof fn lemma_notification_paths_distinct(a: Key, b: Key)
    requires
        a != b,
    ensures
        spec_notification_path(a) != spec_notification_path(b),
{
    reveal_strlit("/org/mechanix/services/HwButton/Power");
    reveal_strlit("/org/mechanix/services/HwButton/Home");
    reveal_strlit("/org/mechanix/services/HwButton/VolumeUp");
    reveal_strlit("/org/mechanix/services/HwButton/VolumeDown");
    // The four paths have four different lengths.
    assert(spec_notification_path(a).len() != spec_notification_path(b).len());
}

} // verus!
