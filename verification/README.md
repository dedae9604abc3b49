# Plutonium controller launcher

A replacement for Plutonium's updater that keeps the install in sync with the
CDN, injects a controller-navigation script into the launcher page, launches
the launcher and bridges gamepad input into its window.

The logic is a Verus-verified library under `src/`:

- `manifest` — the CDN manifest types, the revision total and the lookup of
  the launcher page entry.
- `hashing` — SHA-1 of downloads (through the `sha1` and `hex` crates) and the
  comparison with manifest hashes.
- `patch` — the two files the project writes itself and the idempotent
  injection of the script tag before the last `</body>`.
- `updater` — the sync protocol as a state machine: a `Session` answers each
  outcome of outside work (`Event`) with the next `Action`. Its contract is the
  full transition relation; laws such as "only bytes whose SHA-1 matches the
  manifest are written" and "the patched files are never downloaded" are part
  of `Session::advance`'s postcondition.
- `controller` — which key a gamepad state asks for, the key messages and
  their lParam layout, the launcher-window test and the poll timing.
- `launcher` — command-line flags and recognising the launcher process.
- `text` — character-sequence search used by the above.

`app/` is the program around it: HTTP (ureq), the filesystem, JSON (serde),
process launch, gamepad polling (gilrs) and Win32 messages (windows). It
performs the actions that a session asks for and feeds back what happened.
The controller-navigation script is read from `assets/controller-nav.js`
beside the executable.
