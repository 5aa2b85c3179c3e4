# drcom4scut

A Dr.COM (802.1X + UDP heartbeat) client for SCUT. The library under `src/`
holds the client's deterministic core, verified with Verus; `app/` is the
program around it.

## Library (`src/`)

- `settings`: the settings, their defaults and the run/service commands.
- `source`: the inputs settings are resolved from (arguments of a run, values
  of the configuration file) and the errors of resolution.
- `resolve`: resolution of the settings — arguments win over the file, blank
  values count as absent, username and password are required, DNS servers are
  deduplicated — with the laws that follow from it.
- `cli`: what the command line asks for; service runs and service installs
  need an absolute configuration path.
- `text`: blank detection, the DNS default-port rule, hexadecimal constants,
  log level names and clock times (the last three through `hex`, `log` and
  `chrono`).
- `net`: MAC, IP and socket addresses as plain values; MAC parsing through
  `pnet`.
- `util`: IP octets, the MAC codec on `bytes` buffers, random padding and the
  decisions of the interruptible sleeps.
- `supervisor`: the state machines of the worker loops, the generators that
  restart them and the relay between the EAP and UDP sides.
- `service`: the decisions of the Windows service integration.
- `shutdown`: the shared shutdown flag.

## Program (`app/`)

Parses the command line with `clap`, reads the YAML configuration with
`config`, runs the threads and channels of the run loop following the
library's machines, and hosts the Windows service.
