# agnes_mcp

An MCP server for the Agnes AI models (chat, image recognition, image and
video generation), whose logic is a library verified with Verus.

## Layout

- `src/` — the verified library.
  - `config.rs`: configuration defaults, validation, environment overrides
    and the API key pool (trimmed, non-empty, deduplicated in order).
  - `error.rs`: the error type and the text each error displays.
  - `json.rs`: a JSON value, its mathematical model and its compact text.
  - `text.rs`: string helpers with contracts over character sequences.
  - `utils.rs`: frame-count and size validation, file names of downloads,
    and the inline (`data:`) form of image inputs.
  - `tools/agnes_client.rs`: reading API responses, the round-robin key pool
    with per-key cooldowns, video task affinity, and the request run that
    decides which key each attempt uses and when to stop.
  - `tools/{chat,image,image_recognition,prompt,video,health}.rs`: the
    requests each tool builds and the text it returns; video polling
    decisions; and, for image generation, video generation and video
    status, the call as a state machine (`ImageCall`, `VideoCall`,
    `StatusCall`) that takes the outcome of each outside step (chat reply,
    file reads, API response, poll, download) and names the next one.
  - `tools/mod.rs`: tool names, the disabled-tool list and the registry.
  - `server/`: transport modes and how the configured one is served.
  - `cli.rs`: command-line overrides and configuration loading order
    (arguments over environment over file over defaults).
- `app/` — the program around the library: command line, files and
  environment, HTTP requests, the MCP server, and the loops that perform
  the steps the library's call machines ask for.
- `tests/` — tests of the library.

## Trusted boundary

The library calls a few outside functions through wrappers whose contracts
are assumed: `urlencoding::encode`, `regex_lite` matching, base64 encoding,
`Path::extension`, and three `String`/`str` operations of the standard
library that `vstd` does not specify.
