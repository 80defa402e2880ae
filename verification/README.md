# popbill-fax

A command-line client for the Popbill fax API (Linkhub authentication),
whose logic is a library verified with Verus.

## Layout

- `src/` — the verified library:
  - `text`, `decimal`, `urlenc`: characters, trimming, decimal numbers and
    form-encoded query strings, each against a mathematical definition;
  - `values`, `envfile`, `config`: settings from a TOML file, an env file
    and `POPBILL_` environment variables, layered in that order, and the
    configuration read from them (required keys, switches, numbers,
    masking of what is printed);
  - `request`, `search`: checks of a send request and of lookups and
    searches, the approval summaries, the send form and the API addresses;
  - `crypto`, `token`: the signed Linkhub token request and the headers of
    Popbill and Linkhub calls, over SHA-256, HMAC-SHA256, base64, JSON
    quoting and UTC formatting, which come from `sha2`, `hmac`, `base64`,
    `serde_json` and `chrono`;
  - `gate`, `commands`: the approval guard in front of a send or a
    cancellation, as a state machine from answer to next action, and the
    confirmation flags of the guarded commands.
- `app/main.rs` — the program: argument parsing, files, the environment,
  HTTP, and the loop that runs the approval guard.
- `tests/` — tests of the library on concrete values.

The laws that hold across functions are public proof functions named
`law_*` in `config`, `decimal` and `gate`.
