# nerdschloss

The decisions of a door lock controller, verified with Verus: when the lock
motor runs and which way, what the lock and door switches report, and what the
SpaceAPI, MQTT and Mattermost notifications send.

- `src/` is the library. `motordriver` and `webswitch` hold the first
  prototypes, `hardware` and `backend` the first controller generation,
  `raspberrypi` the Raspberry Pi controller (hardware and backend), and `text`
  the trimming, `bool` parsing and decimal rendering they share.
- `app/` is the backend program: web routes, GPIO pins or simulation files,
  the HTTP, MQTT and process calls, and the configuration loading. It hands
  what it reads to the library and does what the library answers.
- `tests/` runs the library on concrete values.
