# opendeck-teams-for-linux (verified core)

An OpenDeck (Stream Deck) plugin for teams-for-linux: a microphone mute
key that mirrors live Microsoft Teams state received over MQTT. The library
also defines camera and hand-raise controls on the same pattern; the plugin
registers only the mute key.

- `src/` — the library, verified with Verus:
  - `state.rs`: the mute / in-call state machine fed by the state topics;
  - `control.rs`: the toggle controls (display mapping, activation guard,
    key images as `data:` URIs);
  - `settings.rs`: settings layering (defaults < config file < property
    inspector), topic names, config-file location, password file;
  - `mqtt.rs`: connection decisions (reconnect, routing and normalising
    incoming payloads, what each broker event leads to, where a key press
    publishes);
  - `text.rs`: trimming, exact comparison and `u16` parsing on characters.
- `app/` — the plugin binary: OpenAction event loop, the `rumqttc`
  connection task, file and environment I/O, JSON/TOML (de)serialisation.
- `tests/` — unit and scenario tests of the library.
