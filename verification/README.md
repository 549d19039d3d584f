# sys-tui

A telemetry agent for a Mac mini and terminal dashboards that watch it from
a Mac Pro, with the decisions of both proved correct by Verus.

- `src/` is the verified library.
  - `text`: string operations with contracts (Unicode trimming, splitting,
    joining, decimal rendering).
  - `wire`: the values exchanged between agent and dashboard.
  - `agent`: the agent's configuration, request authorization, chat planning
    and Ollama replies, the process history, file events and disk usage.
  - `tui`: the dashboards: key handling, the Customize screen, themes and
    colours, configuration normalization, chat formatting, what each panel
    shows, and how the dashboards take in the agent's answers. `tui::laws`
    holds the properties that span several operations.
- `app/` runs the programs: the HTTP server, system sampling and file
  watching of the agent, and the terminal loops and drawing of the
  dashboards (`sys-tui mini-agent`, `sys-tui pro-tui`,
  `sys-tui pro-tui-dashboard`).
- `tests/` exercises the library on concrete values.

The agent reads `AGENT_BIND`, `AGENT_TOKEN`, `OLLAMA_PS_URL`,
`OLLAMA_TAGS_URL`, `OLLAMA_CHAT_URL`, `OLLAMA_MODEL` and `WATCH_DIRS`; the
dashboards read `AGENT_ENDPOINT`, `AGENT_TOKEN` and `PRO_TUI_CONFIG`.
