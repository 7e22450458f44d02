# twitninf-updater

An assistant for Windows that installs and updates TwitNinf on an iPhone plugged in by USB,
with a free Apple account.

- `src/` is the verified library. Each long exchange (the whole installation, the Apple
  drivers, WinGet, WebView2, finding and checking the phone, the download, the sign-in) is a
  state machine there: a function from a state and an event to the next state, what to tell
  the window, and what to do next. Around them stand the failures that the window shows and
  how they are recognised in technical texts, the choice of the version, the remembered
  accounts, the second factor, the certificates, the progress meters and the questions that
  wait for an answer.
- `app/` is ordinary Rust around it: the window, the network, the phone, the credential
  store and the commands that Windows runs. It does what the library answers and hands back
  what came of it.
- `tests/` runs the library on concrete values.

The window itself needs `tauri` 2, beside the crates that `Cargo.toml` names.
