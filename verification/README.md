# bekoedit

The verified core of a source-preserving Markdown editor: the raw file is
canonical, and every surface that shows or edits it is a projection.

`src/` is a Verus library. Its contracts state, over sequences of characters
and bytes:

- how the text editor's `\n`-only view of a document is reconciled with the
  file's own line endings (`editor_text`), and that a uniform file keeps its
  ending, a text equal to the current view changes nothing, and a splice
  leaves everything outside the edited range as it was;
- the document session and the application store: stale revisions are
  refused, unsaved edits are protected from external changes, a conflict
  blocks saves and edits until the user decides, and every disk operation is
  split into a decision the store makes and an outcome the caller reports
  back (`session`, `store`, `conflict`, `save`, `recovery`, `export`);
- link clicks: percent-decoding, lexical resolution inside the workspace and
  what a click may open (`link_click`);
- the WebView test harness's pure parts: the phase machines and their
  message validation (`transport`, `smoke`, `shell_behaviour`,
  `trusted_click`), and the judgements of the release checks (`release*`,
  `link_judge`, `link_layer_two`, `link_clicks`, `paste_report`, `diagnose`).

`app/` holds what a library cannot: file I/O, JSON framing with serde, and the
glue that runs the library's decisions against the disk.

`tests/` runs the library on concrete values.
