# relay_plugin

The plugin runtime of a relay for agent traffic, as a verified library: how plugins are
configured, found, loaded, activated, called and taken down again.

Functions state in their contracts what they return and when they fail, down to the text of each
message, and Verus proves it. Where a result rests on the clock or chance, the contract states the
form of every outcome. Paths are split and joined by the platform: functions that are told the
platform are exact for one where `/` separates components, and the others state what `/` and
Windows platforms have in common, with either separator between a directory and what is joined to
it. What has to touch the outside world (files, sockets, processes, shared libraries, HTTP) is kept
out of the library: `src/` decides, `app/` performs.

## What is in `src/`

- `config`, `validation`, `handlers`, `registrations`, `activation`, `activation_steps`,
  `component_setup`: plugin configurations, the policy for what is unsupported, the registered
  plugin kinds, and activation with rollback and restoring of what was active.
- `discovery`, `layering`, `paths`: configuration files and how they are layered.
- `dynamic`: records of dynamic plugins, their manifests, and the registry with its generations
  and tombstones.
- `native`: plugins in shared libraries: strings and statuses across the boundary, completions,
  streams, continuations, codecs and scopes.
- `worker`: plugins in processes of their own: startup and handshake, invocations, the host
  service and teardown.
- `guardrails`: the guardrails component with its local and its remote backend.
- `json`, `json_text`, `text`, `text_map`, `digest`, `relay_version`, `error`: what the rest is
  built on.

Functions named `law_..` state properties that span several operations.

Where an operation alternates outside work with decisions, it is a state machine: `begin` gives
the first action, and `take` maps the outcome of an action to the next one.

## What is trusted

The functions marked `#[verifier::external_body]` call outside crates (`serde_json`, `toml`,
`semver`, `sha2`, `chrono`, `uuid`, and `http` through `reqwest`) or parts of the standard library;
the comment above each says what is believed of the call.

## Layout

- `src/`: the library.
- `tests/`: its tests, on concrete values.
- `app/`: the ordinary Rust around it.
