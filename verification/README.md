# bluetooth_timeout

A Windows utility that connects Bluetooth devices and disconnects them again
once a per-device timeout (written like `1h 25s`) runs out, or when the
application closes.

- `src/` is the verified library: the application state and what it does on
  each frame (timeouts counting down, devices to remove, scan results ordered
  by address, the timeout editor), MAC addresses, the meaning of the Win32
  Bluetooth status codes, and the removal, connection and discovery procedures
  as step functions from a system answer to the next system call.
- `app/` is the window (eframe), the background tasks (tokio), logging
  (tracing) and the Win32 calls themselves, which it feeds to the library's
  step functions.
- `tests/` runs the library on concrete values.
