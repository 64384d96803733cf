use vstd::prelude::*;
use vstd::string::*;
use crate::hw_buttons::Key;

verus! {

/// Settings of the launcher's volume buttons: how long a press must last to
/// count as a long press.
#[derive(Clone, Copy, Debug, Default)]
pub struct VolumeButtonSettings {
    pub min_time_long_press: u64,
}

/// A message of the extension apps.
#[derive(Debug)]
pub enum ExtensionAppsMessage {
    Attached { label: String },
}

/// A message sent to the launcher application.
#[derive(Debug)]
pub enum AppMessage {
    Extension { message: ExtensionAppsMessage },
}

/// The launcher's handler of the volume buttons, which reports to the
/// launcher over `app_channel`. `pressed_at` is the monotonic time, in
/// milliseconds, at which the button in hand was pressed.
pub struct VolumeButtonHandler<S> {
    app_channel: S,
    pressed_at: Option<u64>,
    configs: VolumeButtonSettings,
    long_press_sent: bool,
}

/// The message the launcher's handler sends for one item of the notification
/// stream of `key`: a volume-up signal whose arguments could be read
/// announces an attached keyboard; anything else sends nothing.
pub open spec fn spec_volume_message<E, X>(key: Key, signal: Option<Result<E, X>>) -> Option<Seq<char>> {
    if key == Key::VolumeUp && signal matches Some(Ok(_)) {
        Some("Keyboard attached!"@)
    } else {
        None
    }
}

/// The launcher's handler announces an attached keyboard exactly for a
/// readable signal of the volume-up stream, with the text "Keyboard
/// attached!", and sends nothing for any other key, for an unreadable signal
/// or for the end of a stream.
pub proof fn lemma_volume_message_only_for_volume_up<E, X>(key: Key, event: E, err: X)
    ensures
        spec_volume_message::<E, X>(key, Some(Ok(event))) is Some <==> key == Key::VolumeUp,
        key == Key::VolumeUp ==> spec_volume_message::<E, X>(key, Some(Ok(event))) == Some("Keyboard attached!"@),
        spec_volume_message::<E, X>(key, Some(Err(err))) is None,
        spec_volume_message::<E, X>(key, None) is None,
{
}


impl<S> VolumeButtonHandler<S> {
    /// The channel to the launcher.
    pub closed spec fn app_channel(self) -> S {
        self.app_channel
    }

    /// When the button in hand was pressed, if one is.
    pub closed spec fn pressed_at(self) -> Option<u64> {
        self.pressed_at
    }

    /// The settings the handler works with.
    pub closed spec fn configs(self) -> VolumeButtonSettings {
        self.configs
    }

    /// Whether the long-press action was sent for the button in hand.
    pub closed spec fn long_press_sent(self) -> bool {
        self.long_press_sent
    }

    /// A handler reporting over `app_channel`, with a long-press time of 1
    /// and no button in hand.
    pub fn new(app_channel: S) -> (h: Self)
        ensures
            h.app_channel() == app_channel,
            h.pressed_at() is None,
            h.configs().min_time_long_press == 1,
            !h.long_press_sent(),
    {
        Self {
            pressed_at: None,
            configs: VolumeButtonSettings { min_time_long_press: 1 },
            app_channel,
            long_press_sent: false,
        }
    }

    /// The channel to the launcher.
    pub fn app_channel_ref(&self) -> (c: &S)
        ensures
            *c == self.app_channel(),
    {
        &self.app_channel
    }

    /// The message to send for one item of the notification stream of `key`;
    /// the handler's state stays as it is.
    pub fn handle_signal<E, X>(&self, key: Key, signal: Option<Result<E, X>>) -> (msg: Option<AppMessage>)
        ensures
            match spec_volume_message(key, signal) {
                Some(label) => msg matches Some(AppMessage::Extension {
                    message: ExtensionAppsMessage::Attached { label: l } }) && l@ == label,
                None => msg is None,
            },
    {
        match signal {
            Some(Ok(_)) => {
                if key == Key::VolumeUp {
                    Some(AppMessage::Extension {
                        message: ExtensionAppsMessage::Attached {
                            label: String::from_str("Keyboard attached!"),
                        },
                    })
                } else {
                    None
                }
            },
            _ => None,
        }
    }
}

/// A toast shown when an extension is attached.
#[derive(Debug, Clone, Default)]
pub struct ExtensionToast {
    pub label: String,
}

impl ExtensionToast {
    /// The text the toast shows: none for an empty label, else the label.
    pub fn toast_text(&self) -> (text: Option<String>)
        ensures
            self.label@.len() == 0 ==> text is None,
            self.label@.len() != 0 ==> (text matches Some(t) && t@ == self.label@),
    {
        if self.label.as_str().is_empty() {
            None
        } else {
            Some(self.label.clone())
        }
    }
}

} // verus!
