# obc

The command-and-control core of a small satellite on-board computer, written
in Verus.

- `src/` is the verified library: the uplink packet format (`parser`,
  `commands`), the operator console line and the runtime loop's decision after each wait for input (`console`), the mode rule (`modes`),
  fault detection and fault tests (`faults`), the power-on self test (`post`),
  the command handler (`handler`), the per-tick subsystem update
  (`subsystems`), the storage record format (`storage`), the log-line format
  and error dump selection (`logger`), and the text helpers they share
  (`text`). Command handling returns the outside work to do as a list of
  `actions::Action`s.
- `app/` is the runtime around it: the stdin reader, the clock, the log,
  error-dump and storage files, and the analog readings (voltages,
  temperatures, signal strength, attitude rates), which are floating point and
  reach the library as threshold checks (`FaultReadings`, `PostReadings`,
  `PowerReadings`).
- `tests/` exercises the library on concrete inputs.
