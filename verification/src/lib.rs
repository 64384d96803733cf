//! Verified decision logic of the Mechanix system services and shell:
//! hardware-button signal routing, volume-button handlers, the search
//! service's D-Bus replies, polkit verdicts and the universal-search model.

pub mod hw_buttons;
pub mod search_server;
pub mod polkit;
pub mod universal_search;
pub mod vol_buttons;
pub mod launcher;
pub mod portal;
