# codewen

Verified core logic of the Codewen command-line tools, written in Verus.

- `src/` — the verified library: access-token classification, the
  desktop-app launch decisions (workspace display, `codewen://` thread URL,
  app probe, open-or-install state machine), form-urlencoding with its
  decoding law, request environment resolution, patch-approval
  elicitation, version parsing, rollout configuration and metric names.
- `tests/` — tests of the library on concrete values.
- `app/` — the input/output around it: running PowerShell, printing
  notices, JSON (de)serialization of elicitations, removing cached skills.

## What `app/` does not hold

Several pieces of the surrounding program rest on the project's own
workspace crates (`codewen_core`, `codewen_protocol`, `codewen_rollout`,
`codewen_skills`, `codewen_utils_absolute_path` and others), which are not
published and so are not available here:

- sending the patch-approval elicitation (or its "invalid params" error),
  spawning the task that waits for the answer, and submitting the resulting
  operation to the thread: `app/patch_approval.rs` stops at the JSON value
  and at the operation to submit;
- inferring the absolute path URI of a client path (`ClientPath.inferred`)
  and making a requested working directory absolute, whose outcomes
  `resolve_turn_environment_selections` and `resolve_request_cwd` take as
  inputs;
- locating the system-skills cache: `uninstall_system_skills` takes the
  cache root instead of computing it;
- building legacy API turns from rollout items: that function only filters
  items with a predicate of the rollout crate and feeds them to a history
  builder of the app-server, both unavailable, so it has no counterpart;
- implementing the rollout crate's configuration trait for `Config`.
