# distilllab

The agent and desktop logic of Distilllab, verified with Verus.

- `src/` is the verified library: the session planner (keyword routing,
  reading and checking the model's structured decision, fallbacks, the
  streamed-reply bookkeeping), the prompts and request builders of the
  extraction, project-resolution and run-summary agents with the checks on
  their outputs, the tool and skill registries, the OpenAI-compatible wire
  data with error texts and server-sent-event line handling, and the desktop
  side: preferences, text formatting, the plain-text and structured session
  timeline with one card per run, and the live tool/run/stream events.
- `tests/` runs the library on concrete values.
- `app/` holds what the library leaves to ordinary Rust: HTTP calls with
  `reqwest`, JSON decoding with `serde_json`, the async session-agent
  interface and the LLM-backed planner loop, and the SQLite stores.

The text timeline follows the desktop-react shell: a user message with
attachments carries an `{"attachments": [...]}` line after its content. The
older desktop shell's formatter, which leaves that line out, is not kept.
