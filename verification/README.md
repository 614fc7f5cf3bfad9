# dmc

Host-side driver for a DIY Bluetooth LE motion controller.

- `src/` is the library, verified with Verus: the driver's model of the
  controller (`state`), the messages to and from clients (`protocol`), the
  controller's characteristics and the Bluetooth task's decisions (`ble`),
  the WebSocket task's decisions (`ws`), broadcasting updates (`bus`), the
  simulated input (`mock`) and the virtual gamepad (`gamepad`).
- `app/` holds the programs around it: the daemon (Bluetooth and WebSocket
  I/O, run as `daemon [--mock]`), a sample client, the ViGEm gamepad bridge,
  and two small experiments. It also holds the JSON form of the messages,
  whose joystick axes are floating-point values.
- `tests/` runs the library on concrete inputs.
