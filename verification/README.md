# nac

The core of a terminal-driving coding agent, with its logic proved by Verus.

## Layout

- `src/` — the verified library.
  - `api.rs`: backends, their defaults, client settings, status handling and retry backoff.
  - `requests.rs`, `replies.rs`: the JSON bodies sent to the model APIs and the
    turns read back from their answers.
  - `json.rs`, `types.rs`, `text.rs`: JSON values, the chat types, string helpers.
  - `config.rs`: the configuration with its defaults and lookups.
  - `life.rs`, `life_zones.rs`: the Game of Life field behind the animation, its
    patterns and seeding, and the zones it is watched by.
  - `terminal/`: the registry of terminal sessions and their ownership, the
    runner's messages, and the text of a screen.
  - `tools/`: the terminal tools — input notation, argument handling, answers,
    and the tools' definitions.
- `tests/` — tests of the library on concrete values.
- `app/` — the program around it: configuration files, the HTTP client, PTY
  sessions in their threads, the tool's asynchronous orchestration and the
  animated field (which works in floating point).

Each module states what its functions return in `ensures` clauses over
mathematical models (`Seq`, `Map`, views); the `law_*` proof functions state
properties that span several calls, such as the exclusivity of terminal
ownership or what a checkout followed by a checkin gives back.

Calls into other crates (`url`, `blake3`, and a few of `std`) stand behind
small trusted wrappers whose contracts say what those crates document.
