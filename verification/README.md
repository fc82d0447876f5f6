# rphide

rphide hides the Discord rich presence while chosen programs run: it takes
over Discord's local IPC socket, scans the running programs every cycle, and
sets or clears a placeholder activity.

- `src/` is the library, each function proved against its contract: the
  Discord IPC frame format (`discord_data`), the one-byte protocol between
  rphide processes and the runtime paths they share (`self_ipc`), the scan
  (`trigger`), the presence state machine (`presence`), the configuration's
  triggers (`config`) and the window state (`ui`).
- `app/` is the program around it: sockets, files, threads, the scan loop,
  the Discord client, the eframe window and the tray icons.
- `tests/` exercises the library on concrete values.
