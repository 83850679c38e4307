# ailoop

Building blocks for streaming chat agents, with their behaviour stated in contracts and proved by
Verus.

- `src/` is the library. Messages, stream events and requests have mathematical models, and every
  function says what it does over them:
  - `message`, `stream`, `request`, `config`, `middleware`, `ids`, `duration`: the vocabulary;
  - `anthropic`, `azure_openai`: what goes over the wire, how streams are read, what errors mean;
  - `retry`: how often and after which wait a failed call is sent again;
  - `tokenizer`, `compaction`, `context_manager`: a history under a token budget;
  - `persist`, `snapshot`, `history_store`: conversations as JSON and back;
  - `prompt`, `mcp`, `tool_macro`, `testing`: prompts, tools of MCP servers, tool attributes, scripts;
  - `json`, `record`, `text`, `http`: what the others stand on.
- `tests/` runs the library on concrete values.
- `app/` is ordinary Rust around it: HTTP, child processes, files, the environment, token streams.

Laws that span several functions are public proof functions, such as `truncation_keeps_pairs`,
`tool_calls_nest` or `message_text_reads_back`. What the library takes from other crates on trust
stands in functions marked `#[verifier::external_body]` and in `assume_specification` items, each
with a comment that says what is believed.
