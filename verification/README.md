# ghostwriter_lib

GhostWriter refines selected text anywhere on the desktop: a global shortcut
copies the selection, sends it to a language model with an instruction file,
and pastes the answer back, putting the user's clipboard back afterwards.

`src/` is the verified library (Verus):

- `text` – character-level helpers (search, white space, joining).
- `api` – request bodies, reasoning-block removal, response extraction and
  the clients' addresses and headers.
- `config` – settings, their defaults and paths, URL checks, error texts.
- `secret` – protecting the API key at rest with the machine key.
- `notify` – notification titles, body shortening, log lines.
- `clipboard`, `instructions`, `hotkey`, `about` – their small rules.
- `workflow` – one run of the shortcut as a state machine, with the laws
  every run keeps.

`app/` is the desktop shell (Tauri, files, HTTP, keystrokes) that performs
the library's actions; `tests/` runs the library on concrete values.
