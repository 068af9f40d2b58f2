# codex_sandbox

The decisions of a cross-platform process sandbox, verified with Verus.

The library holds no I/O. A host gathers what the operating system reports as plain values,
asks the library, and performs what it decides:

- `types`, `error`, `native`: the public vocabulary, with native strings and paths as data.
- `policy`: which access a rule gives, which policies a backend can enforce, and the
  entries that a policy becomes.
- `runtime`: backend selection, command validation, launch admission, native commands.
- `process`, `lifetime`, `process_group`: observation, control and retirement of processes
  and process groups.
- `seatbelt`: the launcher prefix of the macOS backend.
- `windows`: namespaces and products, firewall and filter policy, setup containment,
  embedded sessions, and the standalone companion protocol with both its ends.
- `text`, `order`, `utf16`, `model`: text, path order, UTF-16, and facts about vectors.

Every public function states what it returns over the mathematical model of its arguments.
Public proof functions state what holds of several functions together.

`app/` is the host side: it converts native values, probes the file system, runs processes,
frames JSON, and drives the flows that alternate decisions and operations. On Windows it holds
the policy lease and the containment of setup helpers; the other operations there are traits. `tests/` runs the
library on concrete values.
