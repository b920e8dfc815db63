# mini_claude_code

A small terminal coding assistant: it streams a conversation with a language
model, runs the tools the model asks for (shell commands, file reads, writes
and edits, glob and grep searches), keeps sessions on disk and tracks the cost
of each turn.

- `src/` is the library, written in Verus: the conversation state and the turn
  assembler for streamed events, the SSE line buffer, the line editor's key
  handling, the tools' argument checks and result texts (the read tool's
  numbered listing, the edit rule), exact cost accounting and the layout of
  its reports, session paths, listing, titles and the resume picker's
  selection, credential decoding and the order of key sources, terminal layout
  arithmetic and code highlighting. Every function
  there carries a contract; Verus proves them all except those of the small
  wrappers marked `#[verifier::external_body]` around syntect, serde_json, hex
  and std calls, which are trusted and say in their doc comments what they
  claim. The properties that span several calls are stated as public proof
  functions named `law_*`.
- `tests/` exercises the library on concrete values.
- `app/` is the program around it: argument parsing, HTTP streaming, the raw
  terminal, the file system and the subprocesses, and the floating-point
  formatting of token counts and costs. It hands the library plain values and
  prints what comes back.
