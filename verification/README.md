# nyanpasu_service

Lifecycle management for Clash-family proxy cores (Mihomo, clash-rs, Clash
Premium, meow), and the IPC surface of the service that runs them.

`src/` is the library. It makes every decision and is verified by Verus:

- `manager`: starting, stopping, switching and re-configuring a core, one epoch
  per process; the quarantine of epochs whose death was not proven; what
  watchers are shown.
- `instance`: one running core: the command that starts it, the monitor that
  follows its process and its probes, and the proof that its process is dead.
- `runtime_store`: the runtime directory: which files belong to an epoch, how
  configs are staged, installed, put aside and restored, and how an epoch is
  cleaned up.
- `config`, `yaml`: reading and deriving core configs.
- `kind`, `feature`, `capability`: what the kinds of cores can do, and how their
  versions are found out.
- `clash`, `health`, `host`: where a core's controller is.
- `ipc`, `service`: what clients may ask for and what they are told.

Work on the outside world is split off as steps: the library says what is to be
done next, and takes a report of what came of it. `app/` performs the steps:
files, processes, sockets and the wire formats.

What the library believes of other crates without proof stands in small wrapper
functions, each with a comment that says what is claimed.
