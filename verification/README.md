# manami

The verified core of a chat companion bot.

- `src/ai.rs` — the conversation log (at most 500 messages, oldest dropped
  first), the provider-neutral `ChatBackend` trait and the `ChatAI` client:
  request bodies, the outcome of a generation, and the laws of the log.
- `src/gpt.rs` — the GPT models and the OpenAI backend: the JSON request
  body, headers, endpoint, and reading a reply.
- `src/json.rs` — JSON string literals, through `serde_json`.
- `src/commands/` — the `/echo`, `/gpt` and `/auto` slash commands: their
  declarations and what they answer.
- `src/message_store.rs` — the message store's request handling: which
  statement a request runs and what it is answered.
- `src/text.rs` — string equality, decimal formatting and `usize` parsing.
- `app/` — the bot program: environment, HTTP, JSON decoding of replies,
  the chat platform's client, and the message store's endpoints on the
  edge runtime.
