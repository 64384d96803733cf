use mechanix::hw_buttons::{notification_path, route_button_event, HwButtonInterface, Key};
use mechanix::launcher::{AppMessage, ExtensionAppsMessage, VolumeButtonHandler, VolumeButtonSettings};
use mechanix::vol_buttons::{volume_subscriptions, LockButtonSettings, VolButtonHandler};

#[test]
fn notification_paths_per_key() {
    assert_eq!(notification_path(Key::Power), "/org/mechanix/services/HwButton/Power");
    assert_eq!(notification_path(Key::Home), "/org/mechanix/services/HwButton/Home");
    assert_eq!(notification_path(Key::VolumeUp), "/org/mechanix/services/HwButton/VolumeUp");
    assert_eq!(notification_path(Key::VolumeDown), "/org/mechanix/services/HwButton/VolumeDown");
}

#[test]
fn matching_key_is_forwarded_on_its_path() {
    let n = route_button_event(Key::Home, Key::Home, 7u8).unwrap();
    assert_eq!(n.path, "/org/mechanix/services/HwButton/Home");
    assert_eq!(n.event, 7u8);
}

#[test]
fn foreign_key_is_dropped() {
    assert!(route_button_event(Key::Power, Key::VolumeUp, 1u8).is_none());
    assert!(route_button_event(Key::VolumeDown, Key::VolumeUp, 1u8).is_none());
}

#[test]
fn hw_button_interface_is_copy() {
    let a = HwButtonInterface {};
    let b = a;
    let _c = a;
    let _d = b;
}

#[test]
fn subscriptions_are_the_published_paths() {
    let (up, down) = volume_subscriptions();
    assert_eq!(up, notification_path(Key::VolumeUp));
    assert_eq!(down, notification_path(Key::VolumeDown));
}

#[test]
fn desktop_handler_reports_readable_signals() {
    let h = VolButtonHandler::new(LockButtonSettings { min_time_long_press: 1000 });
    let r = h.handle_signal::<u8, ()>(Key::VolumeUp, Some(Ok(3))).unwrap();
    assert_eq!(r.key, Key::VolumeUp);
    assert_eq!(r.event, 3);
    assert!(h.handle_signal::<u8, ()>(Key::VolumeDown, Some(Err(()))).is_none());
    assert!(h.handle_signal::<u8, ()>(Key::VolumeDown, None).is_none());
    assert!(h.handle_signal::<u8, ()>(Key::VolumeDown, Some(Ok(9))).is_some());
}

#[test]
fn launcher_handler_announces_keyboard_on_volume_up() {
    let h = VolumeButtonHandler::new(5u32);
    assert_eq!(*h.app_channel_ref(), 5u32);
    match h.handle_signal::<u8, ()>(Key::VolumeUp, Some(Ok(0))) {
        Some(AppMessage::Extension { message: ExtensionAppsMessage::Attached { label } }) => {
            assert_eq!(label, "Keyboard attached!");
        }
        None => panic!("expected a message"),
    }
}

#[test]
fn launcher_handler_is_silent_otherwise() {
    let h = VolumeButtonHandler::new(());
    assert!(h.handle_signal::<u8, ()>(Key::VolumeDown, Some(Ok(0))).is_none());
    assert!(h.handle_signal::<u8, ()>(Key::VolumeUp, Some(Err(()))).is_none());
    assert!(h.handle_signal::<u8, ()>(Key::VolumeUp, None).is_none());
}

#[test]
fn volume_button_settings_default() {
    assert_eq!(VolumeButtonSettings::default().min_time_long_press, 0);
}

#[test]
fn each_key_has_its_own_path() {
    let keys = [Key::Power, Key::Home, Key::VolumeUp, Key::VolumeDown];
    for a in keys {
        for b in keys {
            assert_eq!(a == b, notification_path(a) == notification_path(b));
        }
    }
}
