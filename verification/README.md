# larus_core

Core logic of a glider vario front end, verified with Verus.

`src/` holds the verified library:

- `can_frame`, `le_bytes`, `slices`: CAN frames, their little endian values and readers.
- `can_ids`, `persist`: the identifiers of datagrams, configuration items and stored settings.
- `can_dispatcher`: the startup on the bus (address arbitration), the device list kept by
  heartbeats, the receive filter and the identifiers of sent frames, with ghost logs of what
  it offers to the application and to the driver.
- `can_wtr`, `can_rdr`: the frames the device sends, and the readings of the datagrams it
  receives: legacy datagrams, the sensor box's specific datagrams (single precision values by
  their bits) and configuration values set by other devices.
- `nmea_buffer`, `nmea_command`: NMEA sentences received and sent, their checksums, the
  commands they carry and the queue of sentences to send.
- `scheduler`, `clock`: timers of 100 ms ticks, the queue of their callbacks, and what each
  millisecond of the controller is for.
- `softkeys`, `horizon`, `demo`, `device_info`, `sw_update`, `vario`, `menu`: key handling of
  the displays and navigation through the menus.
- `tick_1s`: the decisions of the once-a-second routine (automatic and pin switching of the
  vario mode, thermal climb rate measurement, circling hysteresis).
- `hw_pins`, `input_pins`, `sound`: input and output pins, the gear alarm and the speaker.
- `sunset`, `polar_index`: calendar arithmetic and the sorted order of the stored polars.
- `model`, `error`, `text`, `basic_config`: shared enums, errors, text comparison and settings.
- `persist`: besides the identifiers, where a set value goes (NMEA, CAN, EEPROM) and who may
  set the vario mode.

Each module states its contracts over mathematical views, and the laws that relate several
functions (what a receiver makes of a sent sentence or frame, timers, code round trips) are
proof functions next to them.

`app/` holds what works with floating point numbers (atmosphere, airspeed, wind, polar,
circle statistics, the sunset time), float values in frames and NMEA settings and sentences,
the controller's millisecond loop and once-a-second routine around the verified decisions,
and a lock for data shared with interrupts.

`tests/` runs the library on concrete values.
