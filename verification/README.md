# meeting_local

The verified core of a local meeting recorder and assistant: it records
meetings, transcribes them with Whisper, labels speakers, stores everything in
SQLite and lets the user chat with a local LLM about a recording, with tools
the model can call.

`src/` is the library, written in Verus.  Its functions carry contracts that
Verus proves, except the few small trusted items that call outside crates
(`#[verifier::external_body]`), whose doc comments say what is assumed:

- `hardware`, `recommendations`: hardware profiles, performance tiers,
  Whisper settings and model recommendations.
- `tool_calls`, `tool_prompt`, `tool_loop`, `json_scan`: simulated tool
  calling — the tool prompt, reading tool calls from model output, routing,
  feeding results back, and the bounded loop around it.
- `chat_context`: the transcript context, system prompt and replayed history
  of a chat completion, and its control decisions.
- `sidecar`: the LLM sidecar's message preprocessing, tool prompt injection,
  tool-call parsing and JSON-RPC answers.
- `search`, `update_plan`, `settings`, `migrations`, `naming`: the SQL the
  database layer runs, how stored settings are read, and the ids, names and
  numbers given to new records.
- `speaker_merge`, `retranscription`, `transcript_text`,
  `transcription_flow`, `mixer_buffer`, `chunk_buffer`, `stream_errors`: re-transcription,
  speaker merging, chunking, audio buffering, stream errors and the live
  transcription pipeline's decisions.
- `runtime_state`, `task_registry`: process-wide recording state, cancelled
  jobs and running chat tasks.
- `models`, `templates`, `text`, `outside`: records, template prompts, text
  helpers with their specifications, and the calls into outside crates.

`tests/` exercises the library; `app/` holds the I/O around it (locks,
hardware probes, SQLite statements and schema migrations, floating-point
audio, the loops that drive the library's step functions for chat
completions and re-transcription, the sidecar's line protocol and
serialisable copies of the library's types).
