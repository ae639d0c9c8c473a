# traffic_light_control

Control logic for a pedestrian crossing whose pedestrian green can be
extended by fuzzy inference on pedestrian and vehicle counts.

- `src/` — the verified library (Verus):
  - `membership_fns`, `fuzzy_inference`: membership degrees as exact
    fractions of 300, the rule base, and the aggregated firing strength of
    each extension action.
  - `sim::traffic_light_sim`: the signal-cycle controller with pause, skip,
    speed, manual control and all-red hold, as a step function from state and
    resume point to next state and action; `traffic_light_sim`: the basic
    cycle without manual control. Both are proved to keep the crossing safe.
  - `traffic` (and `http::public_entry`): the signal heads and the SQLite
    count history (weekly average, hourly purge); `sql_ops`: the first form
    of that history, with text labels.
  - `traffic_light`: a single crossing's change-over sequences as steps.
  - `text`, `camera`: parsing of typed counts and of ffmpeg's device list.
- `app/` — the program around it: the egui windows and their driver
  threads, camera capture, YOLO counting through Python, file reading, and
  the simulation/plot runner.
- `tests/` — tests of the library.
