# kodex

Verified decision logic of the Kodex agent runtime, written in Verus.

- `src/` — the library. Each module states its rules as spec functions and proves the
  executable code against them:
  - `api_bridge` (with `error`, `headers`, `json`, `rate_limits`): mapping Responses API
    failures onto runtime errors, by status, JSON error body and tracking headers, with
    the rate-limit snapshot of a usage-limit rejection;
  - `windows_sandbox`, `sandbox_selection`: sandbox levels, legacy feature flags,
    networking policy, setup metrics, and the setup-then-persist step machine;
  - `trusted_tools` (with `config_value`): home ownership of plugin capabilities and
    tool trust, with a step machine for the file-system checks and the comparison of
    the user configuration layer against the effective configuration;
  - `additional_context`, `workspace_roots`, `event_stream_auth`, `session_errors`,
    `agent_control`, `memories`, `history_notes`, `service_identity`, `access_token`,
    `runtime_paths`, `test_support`, `collaboration`, `shell_snapshot`, and small rule
    modules.
  - `text`: verified string helpers, with Unicode white space.
  Calls into `serde_json`, `base64`, `http`, `chrono` and `std::path` stand behind
  small trusted wrappers whose contracts name what those calls return.
- `tests/` — executable tests of the library.
- `app/` — the thin outside layer: header maps and status codes, file-system
  resolution for the capability check and the user configuration file, the driver of
  the sandbox setup step machine, build-target facts.
