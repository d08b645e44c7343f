# mpris_mqtt_adapter

A bridge between MPRIS players (through `playerctl`) and MQTT: it publishes
the player's state and capabilities, and runs the commands it receives.

The library under `src/` is verified with Verus:

- `text` — trimming, ASCII lowercasing, splitting, sanitizing, each against a
  specification over `Seq<char>`;
- `types` — capabilities, probe checks and the probe report, with their views;
- `probe` — runtime detection of capabilities from read-only `playerctl`
  queries, as a state machine: `probe_next` gives the next query from the
  answers so far, `probe_feed` records an answer, and `probe_result` gives
  exactly `spec_detect` of the recorded answers; with the laws of the probe
  (only reading queries, a failed `status` ends the probe, the `can_stop` and
  `can_seek` fallbacks, the shape of the report);
- `commands` — which `playerctl` invocation each MQTT command asks for;
- `playerctl` — the result of one `playerctl` run and the fields of the state;
- `adapter` — when the player changed, when capabilities are probed again,
  and when a payload is published.

`app/` is the program around it: command-line options, the `playerctl`
process, MQTT, JSON and the floating-point fields of the state.
