# jeha

Light automation for Zigbee2MQTT, with its rules verified by Verus.

jeha keeps the lights of a home on a circadian curve, answers motion sensors and remotes, runs night
mode and lights-out on schedules, notices when somebody else changes a lamp, and takes requests over
an HTTP API and the Model Context Protocol.

## Layout

- `src/` is the library: every decision that the daemon makes, as verified functions from values to
  values. A function that would act on the world returns a plan: state updates, commands to lamps and
  events, in order (`src/effect.rs`). Contracts say exactly which plan it is.
- `src/laws.rs`, and the functions named `law_*` next to the rules they are about, state what holds
  across functions.
- `tests/` runs the library on concrete values.
- `app/` is the daemon around the library: command line, configuration file, broker connection,
  servers and timers. It carries the plans out, and does the floating point of the curve.

| Module | What it decides |
| --- | --- |
| `config`, `daemon`, `init`, `config_sync` | defaults, validation, migration, first configuration, new rooms |
| `schedule`, `clock`, `time` | time windows, days, months and their combinations |
| `circadian` | the curve of a room, and which lamps are told what |
| `calibration` | offsets and ranges of single lamps |
| `state` | what is known of rooms and devices, and how it changes |
| `mqtt` | topics, payloads, device reports, reconnecting |
| `automation` | motion, remotes, configured automations |
| `night_mode`, `lights_out` | scheduled switches |
| `api`, `mcp`, `control`, `report` | requests and answers |

## What is trusted

The wall clock in a time zone (chrono, chrono-tz), reading single values out of JSON (serde_json) and
TOML (toml), and a few functions of std on characters and strings are called through functions whose
contracts are stated and not proved. They stand in `clock.rs`, `json.rs`, `config/migrate.rs`,
`naming.rs` and `text.rs`.

## Running

    jeha run --config config.toml
    jeha validate --config config.toml
    jeha migrate --config config.toml --dry-run
    jeha init --mqtt localhost:1883 --output config.toml
    jeha schema
