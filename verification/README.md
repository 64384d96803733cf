# mechanix

Verified decision logic of the Mechanix system services and shell, written
in Verus.

- `src/hw_buttons.rs`: hardware keys, the D-Bus paths of their notifications,
  and the routing of a button device's readings.
- `src/vol_buttons.rs`: the desktop server's volume-button handler and the
  paths it listens on.
- `src/launcher.rs`: the launcher's volume-button handler and extension toast.
- `src/search_server.rs`: the search service's D-Bus methods, gated by its
  configuration, over search backends given as calls.
- `src/polkit.rs`: the verdicts of a polkit authorization check.
- `src/universal_search.rs`: merging, icons, queries and rows of the
  universal search.
- `src/portal.rs`: the desktop portal's request type.
- `app/`: the button event loops, D-Bus and polkit plumbing, icon lookup on
  disk, serde settings.
