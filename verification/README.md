# antex

The verified core of the Antex terminal client, written in Verus.

`src/` is the library; every function in it carries a contract that Verus
proves:

- `keys`, `parse`, `bindings`, `validation`, `keymap_config`, `keymap`,
  `keymap_defaults`, `keymap_resolve`, `keymap_conflicts`: key specs such as
  `ctrl-shift-a`, the `tui.keymap` configuration, its resolution into the
  runtime keymap (context value, then global fallback, then built-in keys)
  and the conflict rules every resolved keymap satisfies; `keymap_laws`:
  configured actions keep their keys and newer built-in keys yield to them;
  `composer_keys`: what one key press does in the composer; `edit_history`:
  how much undo/redo history is kept.
- `edit`: replacing the unique occurrence of a text in a file across
  line-ending conventions.
- `table_layout`, `table_metrics`, `link_suffix`: the rows a markdown table
  keeps, what its cells say about its columns, the column widths that fit a
  terminal and which way the table is drawn (aligned grid, key/value
  records or raw pipes); what a closed link leaves after its label. The
  styled drawing itself is not part of this library.
- `diff_rows`: the numbered rows of an added, deleted or updated file.
- `frame_layout`: the rows of the inline frame below the history.
- `workflow_models`, `agent_status`: the models that a workflow field's
  picker offers, and the subagents listed as running.
- `images`: the budgets of attached images and the next size a picture
  shrinks to when its encoding does not fit. Decoding, resizing and
  encoding pictures need the `image` crate, which could not be had here,
  so the loop that repeats them until the encoding fits is not part of
  this library.
- `session`, `transcript`, `previews`, `history_replay`: the session log,
  its named UI state, transcript pages, session previews and the history
  drawn again after a resize.
- `project_context`, `skills`: instructions cut into fragments within their
  byte budgets, and the skill catalog's descriptions.
- `browser`, `device_login`, `auth`, `accounts`, `access_token`: browser and
  device-code logins, token responses, saved accounts and which credentials
  a request uses, and token classification.
- `clipboard`, `paths`: pasted image paths, the `/cd` argument, `file:` links
  and markdown line anchors.
- `sandbox_filter`: the seccomp program of the Linux sandbox.
- `workspace_files`: which paths a session may read or write, under which
  root, and the size budgets of files.
- `outside`: the calls into `url`, `urlencoding`, `shlex`, `unicode-width`,
  `base64`, `sha2`, `rand` and `diffy`, with what is assumed of them.

`app/` holds what Verus does not see: serde forms of the configuration,
terminal key events, JSON UI state, session logs, files on disk and the
sandbox's filter file.
