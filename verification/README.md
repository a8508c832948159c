# enversal

A control plane for autonomous AI agents living in sandboxed environments
(single-agent *isolones* and multi-agent *communes*), with its decisions
written in Verus and proved against their contracts.

Layout:

- `src/` — the verified library:
  - `ids`, `text`, `paths`, `json`: identifiers, text search and trimming,
    path rules, and the JSON reads done through `serde_json`;
  - `agent`, `environment`, `limits`, `manifest`: the domain model, agents
    entering and leaving environments, and the blueprint;
  - `prompt`, `engine`: the agent protocol (system instructions, the
    `<tool_call>`, `<plan>`, `<finish>`, `<approved>`/`<rejected>` tags) and
    what is sent to and read from the reasoning backends;
  - `sandbox`, `tools`: sandbox policies, seatbelt profiles, and the jobs of
    the four tools with what they record;
  - `registry`, `service`: live environments and runtimes, provisioning from a
    blueprint, listing, status and inspection;
  - `cognitive`: the reasoning loop as a state machine;
  - `timeline`: the telemetry viewer's state.
- `tests/` — tests of the library.
- `app/` — the program around it: HTTP calls to the backends, child
  processes, the asynchronous loop, and the terminal viewer.
