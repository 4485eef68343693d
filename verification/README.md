# craft

The logic of `craft`, a package manager for the npm ecosystem, as a verified
library, with the program around it.

- `src/` — the library, with its contracts and proofs: package specifications and
  version constraints (`version_check`, read with the matcher of `pattern`),
  the npm configuration (`npm_conf`) and its file (`pipeline`), the registry
  and package caches (`cache`), the lockfile and its YAML text (`lockfile`),
  the resolver that records dependencies and binaries in their parents
  (`actors::peer_resolver`), and the decisions of the commands (`command`,
  `actors`).
- `tests/` — tests of the library on concrete values.
- `app/` — the `craft` program: command line, files, environment, child
  processes and the progress display.
