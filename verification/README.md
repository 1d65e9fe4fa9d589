# porthole_gui

The window of porthole, a tool that opens a port in the firewall for a while.

`src/` is the verified library. It decides what the window shows and what it
sends, and it keeps apart facts that must not read as one another: nothing open,
nobody answering, an answer that was an error, an answer that cannot be read.

| module | what it holds |
| --- | --- |
| `text`, `net` | the characters of numbers, addresses and networks |
| `model` | rules, services, published ports, lifetimes and scopes |
| `bus` | what a failed call to the helper means |
| `busy`, `quiet`, `alert` | waiting, quiet notes and trouble notes, questions |
| `open_now` | the rules that are open, their countdowns and their closes |
| `listening_section` | the services listening on this machine |
| `status_bar` | the firewall, or why nothing can be said of it |
| `open_dialog` | what to open, for how long and towards whom |
| `devices_dialog` | the saved devices |
| `window` | the sections together, and everything the window hears |
| `update_consent` | the one question about update checks |
| `screenshot` | the invented machine in the pictures |

`tests/` runs the library. `app/` is the GTK application around it: widgets,
timers, the two buses, the address book and `/proc`. It needs GTK 4, libadwaita
and `porthole_core`.

What the library takes on trust stands in `bus` (`zbus::Error`), in `net` (the
text of an `ipnet` network) and in `text` (`str::trim`).
