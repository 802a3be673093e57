# Second Brain OS — verified core

The decision logic of Second Brain OS, a local-first desktop application that captures text
and PDFs as sources, summarises them with an AI provider, turns summaries into reviewed
knowledge and exports accepted knowledge to an Obsidian vault. Everything under `src/` is
verified with Verus.

## Layout

- `src/domain/` — the records (sources, AI runs, knowledge nodes, prompts, export records,
  provider settings, workspaces) and their enumerations, each with its stored name and a
  checked parser.
- `src/services/` — every application workflow as a state machine. A workflow never touches
  storage, the credential store, an AI provider or the file system itself: it returns a
  `Step` that either names the next `PortCall` to perform or ends with a result. The caller
  performs the call and resumes the workflow with the `PortReply`. `steps_to` states each
  transition exactly; `start` and `resume` are proved to take it.
- `src/ports.rs` — the calls, the replies and the pairing between them.
- `src/dto.rs` — what the user interface receives, field by field.
- `src/text.rs` — the Unicode whitespace, trimming and formatting the workflows rely on.
- `src/json.rs` — the JSON string encoding of `serde_json`, behind a small trusted wrapper.
- `src/laws.rs` — properties that span steps or operations: what only reads, what is always
  recorded, which keys reach which component, and that drafted titles are stable.
- `app/` — the shell around the library: the repository and adapter traits, the loop that
  performs a workflow's calls through them, the services and commands, and the serialisable
  forms of the DTOs.
- `tests/` — the workflows driven by scripted replies, and against an in-memory store.
