# tetron_webui

The verified core of a browser dashboard and admin console for the `tetron`
peer-to-peer mesh VPN daemon.

- `src/` is the library, written in Verus: every function carries a contract
  that Verus proves. It decides what the dashboard asks the daemon, what each
  daemon reply becomes in the browser, how invite codes decode, which add-ons
  exist and what installing or removing one means, and how discovered message
  boards are listed.
  - `invite`: invite-code decoding (base58, blake3 checksum, ed25519 key check).
  - `ipc`: the daemon requests and replies as the library holds them.
  - `api`: the browser-facing actions, the action envelope and the status view.
  - `addons`: the add-on registry, install locations, status probes, the
    script-install and uninstall steps.
  - `board_discovery`: member probing (reading each health answer) and board
    listing.
  - `messageboard`, `sync_receiver`, `command`: the add-on binaries' CLI calls.
  - `server`, `service`: listen port, backup-script proxy (status, headers,
    body, cache), service files (running binary and port), the readiness wait at install.
  - `text`: string routines (decimal, parsing, replacing, trimming, prefixes).
- `app/` is the program around it: the HTTP server, the daemon socket, the
  processes and files. It holds no rules of its own.
- `tests/` runs the library with the real outside crates linked.
