# openfeedback

A human-in-the-loop decision gate for AI agents: a request is posted to
Telegram or Discord with Approve / Reject buttons, and the answer comes back
as JSON on stdout and as the exit code (0 approved, 1 rejected, 2 timeout).
A secondary provider can take over when the primary stays silent.

The library under `src/` holds the rules and decisions, each with a
contract proved by Verus:

- `text`: escaping for Telegram HTML and Discord Markdown, tag stripping,
  decimal rendering and `str::parse`-compatible integer reading.
- `config`: the configuration model, its defaults and paths, and validation.
- `i18n`: the texts of each locale.
- `types`: requests, decisions, responses and exit codes.
- `render`: where a request body comes from.
- `providers`: building providers; `telegram` and `discord` decide what each
  update or Gateway frame means; `proxy` handles HTTP CONNECT tunnelling;
  `orchestrator` plans the providers, splits the time budget and records
  escalation.

`app/` is the command-line program around it: argument parsing, file and
network I/O, the async loops that carry out the library's decisions, and
the serde forms of the library's types.
