# systemd-webhook-notifier

Reports the last run of a systemd service: prints its logs, or sends them
with the run's details (result, exit code, times, user, trigger, CPU time,
peak memory, environment) to a Discord webhook.

- `src/` is the library, with its specifications and proofs: reading
  `systemctl show` output, the `systemctl`/`journalctl` command lines, the
  user backfill, the Discord payload, the webhook's answer, and the text
  primitives they rest on (`lines`, `split_once('=')`, integer parsing and
  printing).
- `app/` is the command-line program: argument parsing, running the
  commands, JSON serialization and the HTTP post.
- `tests/` exercise the library on concrete values.
