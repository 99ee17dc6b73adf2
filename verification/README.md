# doge_code

The decision logic of an AI coding agent, written in Verus and proved
against its contracts: the execution policy that guards process and shell
execution, bounded output capture and budgets for tool output, the
conversation history and its compaction, model-request retries and error
handling, streamed tool-call reassembly, test-output parsing and the
prompts built from it, patch recovery, workflows, diff review, the
managed process lifecycle (capture, termination, reaping), the JSON
results and reports of tools and runs, and the agent loop as a state
machine with its per-step decisions.

Layout:

- `src/` — the verified library. Each module states its behaviour over
  spec functions and views; `src/laws.rs` states and proves properties
  that span functions (the policy's guarantees, trimming, budgets,
  compaction, retries, stream reassembly, workflow steps, the sub-agent's
  tool subset, process-tree termination).
  Calls into outside crates (`regex`, `serde_json`, `diffy`,
  `unicode-width`, `unicode-segmentation`, `fastrand`, `rand`) go
  through small trusted wrappers whose contracts name what the crate
  computes.
- `tests/` — tests run against the compiled library with the real
  outside crates.
- `app/` — the program around the library: command-line parsing,
  environment loading, file-system and process probes, `git`, workflow
  files and conversions to and from `serde` types.
