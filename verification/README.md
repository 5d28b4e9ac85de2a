# pv-matter

A photovoltaic inverter, published on MQTT, as a Matter Solar Power device
(Power Source, Electrical Sensor, Temperature Sensor).

- `src/` is the library, written in Verus: reading of packs and identities, the
  snapshot that the clusters are read from, routing of topics, composition of the
  node, reports, configuration, and the life of the daemon. Every public function
  has a contract over mathematical models; `src/laws/` states what holds of them
  together.
- `tests/` runs the library.
- `app/` is the daemon around it: the environment, the MQTT client, and the
  implementations of rs-matter's traits.

JSON goes through `serde_json`. Its calls stand in `src/json.rs`, the one of
`String::from_utf8_lossy` in `src/text.rs`; what they return has a name there, and
all else is proved over those names.

## Configuration

| Variable | Default | |
|---|---|---|
| `PV_MQTT_HOST` | (required) | broker |
| `PV_MQTT_PORT` | `1883` | |
| `PV_MQTT_USERNAME`, `PV_MQTT_PASSWORD` | unset | used where both are set |
| `PV_MQTT_TOPIC_PREFIX` | `pv-inverter` | the publisher's prefix |
| `PV_DEVICE_ID` | first seen | the publisher's device |
| `PV_STORAGE_PATH` | `~/.pv-matter` | Matter fabrics |
| `PV_MATTER_PORT` | `5540` | operational UDP port |
| `PV_BOOTSTRAP_TIMEOUT` | `30` | seconds to wait for the identity |
| `RUST_LOG` | `info` | |
