# portkeydrop

The settings, speech and connection logic of the Portkey Drop file-transfer
client, verified with Verus.

- `src/settings.rs` — the settings document, its defaults, the speech
  preference (when announcements are spoken and when the spoken-progress
  question is asked), tilde expansion, and the remembered local folder.
- `src/sound_events.rs` — keeping a muted-events list to known events, once each.
- `src/speech.rs` — what the announcer does with the backend it started.
- `src/ui/connection.rs` — connection attempts that stale workers cannot finish.
- `src/ui/dialogs/speech_prompt.rs` — the spoken-progress question and its answer.
- `src/paths.rs`, `src/text.rs` — joining paths (through `Path::join`), trimming and ASCII case.

`app/` holds what talks to the outside world: the JSON file on disk (serde),
the home directory, the speech backend (prismer) and the dialog (wxdragon).
Paths are passed to the library as text.
