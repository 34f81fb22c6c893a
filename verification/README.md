# flox_develop

The decisions behind Flox's project catalog lock and its `flox develop` command, verified with
Verus.

A project has one catalog lock, `.flox/catalog.lock`, which pins the source of every
`catalogs.*` reference that its Nix expressions make. Builds consume it exactly as found; a
project without one builds with an ephemeral lock in a temporary file. `flox develop <PACKAGE>`
opens a shell that approximates the environment in which a package is built.

The library does no input or output. What needs doing is told by the `action` of a run
(`EnsureRun`, `ProjectLockRun`, `DevEnvRun`, `RcfileRun`, `DevelopRun`), and what came of it is
handed back by `step`. For each run a spec function says what it comes to from what comes of
its actions, and proof functions show that the run ends with that, what it asks for on the way
and what it never does.

- `src/` is the library.
- `tests/` runs it.
- `app/` carries out what the runs ask for.
