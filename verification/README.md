# ai_write_novel

The verified core of a desktop assistant for writing novels with a language model.

- `src/` is the library, written in Verus. Every function states its behaviour in
  `requires`/`ensures` over mathematical models (`Seq`, views of the message types) and is
  proved. It holds the logic of the assistant: choosing the agent, building the system
  instruction and the conversation, the agent loop's bookkeeping (round budget, reading the
  model's reply, pruning the history), routing tool calls, reading the streamed reply, the
  writing and synchronisation steps, the `.env` rewrite, and the listings and context drawn
  from the story folder.
- `app/` is the shell around it: Tauri commands, file and network I/O, JSON (de)serialisation
  and the streaming HTTP client; the decisions it acts on are the library's.
- `tests/` runs the library on concrete inputs.

Laws that span several calls are public proof functions named `law_*` (for example
`settings::law_update_env_idempotent`, `agent_loop::law_prune_history_shape`,
`listing::law_sorted_entries_ordered`, `stream::law_chunking_does_not_matter`,
`agent_loop::law_run_budget`).
