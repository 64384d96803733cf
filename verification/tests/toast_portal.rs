use mechanix::launcher::ExtensionToast;
use mechanix::portal::Message;

#[test]
fn empty_toast_shows_nothing() {
    assert!(ExtensionToast::default().toast_text().is_none());
}

#[test]
fn toast_shows_its_label() {
    let t = ExtensionToast { label: "Keyboard attached!".to_string() };
    assert_eq!(t.toast_text().unwrap(), "Keyboard attached!");
}

#[test]
fn portal_message_carries_options() {
    let m = Message::FileChooserRequested(3u8);
    match m.clone() {
        Message::FileChooserRequested(o) => assert_eq!(o, 3),
    }
}
