# hoptodesk_launch

The command-line handling of the HopToDesk desktop client, with its rules
proved in Verus.

- `src/text.rs`: character-level string operations (prefix, suffix,
  replace, `splitn`) specified over `Seq<char>`.
- `src/launch.rs`: the flags that are consumed, the setup rules, the log
  name, the Windows elevation rules and the plugin start.
- `src/links.rs`: deep links (`hoptodesk://connect/...`, `filetransfer`,
  `sync`) and how they rewrite the command line.
- `src/command.rs`: the command that the first argument selects and how the
  start ends after it.
- `src/invoke.rs`: the link that asks a running client for a new connection.
- `src/start.rs`: the start as a whole, a state machine from the command
  line and the host's replies to the next action and the start's result,
  with the laws it keeps; the `--update` procedure on Windows is a series
  of its steps.
- `src/start/runs.rs`: whole runs of the start for every sequence of
  replies: how a Flutter build and a new-connection request end, what a
  `--connect` command line with a connect link does, and the update.
- `src/import.rs`: importing the configuration files of another installation.
- `src/lang/en.rs`: the English texts of the user interface.
- `app/lib.rs`: `core_main`, which drives the state machine with the
  process's command line and carries out its actions through a `Host` trait.
