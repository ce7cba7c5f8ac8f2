# matrix_commander

A command-line Matrix client, with its rules written and proved in Verus.

- `src/` is the verified library: validation of user and room identifiers,
  room alias completion, the parsing of command-line option values, message
  arguments, log filters, the help text condenser, the configuration model
  (profiles, directory settings and their merging, profile selection and
  update), the layout of session, store and configuration paths (a base
  directory and the components below it; `app/` joins them with
  `Path::join`), which actions need the homeserver, the `--logout` steps,
  and the login decisions: completing a short user name, requiring a
  homeserver, refusing a login while a session is valid, and what a failed
  restore means. Calls into `url`, `regex`, `shellexpand`, `dirs`, `directories` and
  `matrix-sdk` (its user-id parser) stand behind small trusted wrappers whose contracts say what
  those crates document.
- `app/` is the program around it: argument parsing with `clap`, terminal
  prompts, reading and writing the configuration and session files, logging
  set-up and the calls to the Matrix homeserver.
- `tests/` runs the library on concrete values.
