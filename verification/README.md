# x32_vor_adapter

The verified core of a bridge between a Behringer X32 console and VOR, both
spoken to over OSC/UDP.

- `src/settings.rs`: the persistent settings, the send flags and the commands
  that change them (X32 address, VOR address and port, flag switches).
- `src/refresh.rs`: the once-a-second schedule of subscription renewals and
  full state requests towards the console, and the link status.
- `src/vor.rs`: which packets an update to VOR holds, and in which order.
- `src/osc.rs`: the `/currentCue` packet, encoded by `x32_osc_state`.
- `src/listener.rs`: which user-interface event a console report becomes.
- `src/text.rs`: text comparison and the std parsers the commands rely on.
- `app/`: the Tauri application around it: sockets, timers, locks, the
  settings file and the console state tracker.
