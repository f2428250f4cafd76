# formula_scanner

The logic of AI Formula Scanner, a desktop tool that recognises a formula in
an image with a language model: it extracts the LaTeX, asks for a structured
analysis, verifies the LaTeX against the image and keeps the results in a
local history.

`src/` is a library verified with Verus:

- `text` — character-level string operations and their specifications.
- `prompts` — the built-in prompts, language constraints and LaTeX wrapper rules.
- `data_models` — settings, analysis, verification and history records, with
  the default settings and the migration of saved prompts.
- `llm` — everything of the model client that does not touch the network:
  endpoint URLs, the verification prompt, reply cleaning, the lenient reading
  of a LaTeX reply and the retry policy.
- `recognition` — the prompts a recognition sends, what stands in for a failed
  stage, and the score and report of a structured verification.
- `pipeline` — progress reports of the three stages and the history record.
- `history` — saving, deleting, renaming and marking history items.
- `settings` — the prompt views of the settings page and the settling of a
  configuration read from disk.
- `encoding` — base64, PNG and timestamp conversions (done by `base64`,
  `image` and `chrono`) and the data URLs and file names built from them.
- `capture` — names of the capture overlays and captured files.
- `laws` — properties that relate several operations.

`app/` is the desktop program around the library: file and network I/O, the
asynchronous model calls, screen capture and the clipboard, and the
floating-point coverage score.
