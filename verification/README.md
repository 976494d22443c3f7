# zom

The core of the zom editor as a verified library: text buffers with UTF-8
offsets and row/column positions, selections, edit transactions, editor
commands (including find and replace), the viewport, the runtime bridge,
the command catalogs and key maps, and the desktop workbench state (file
tree, panes, tabs, panels).

Every function in `src/` carries a `requires`/`ensures` contract over
mathematical models (`Seq`, `Map`, views of each type) and is proved by
Verus. Properties that span several functions are stated as public proof
functions named `law_*`.

Layout:

- `src/position.rs`, `range.rs`, `selection.rs`, `direction.rs`, `focus.rs`:
  the shared protocol types.
- `src/text.rs`, `src/lines.rs`: the text buffer and line handling.
- `src/editing/`: editor state, transactions, command dispatch, search,
  viewport, and the bridge to the runtime.
- `src/command/`: command invocations and the command catalogs: by
  `CommandId` (`catalog`), by `CommandKey` with string ids (`keyed`), and by
  `CommandKind` over invocations (`kind`).
- `src/input/`: keystrokes, shortcut registry and key maps.
- `src/workbench/`: the desktop state, the file tree and how it is built
  from a directory listing.
- `app/`: the file system and process glue (reading directories and files,
  the current directory), which calls the library.
- `tests/`: tests on concrete values.

Four small wrappers are trusted rather than proved: the two that call the
`regex` crate (`src/editing/search.rs`), `string_push` over `String::push`
(`src/text.rs`), and `lowercase` over `str::to_lowercase`
(`src/workbench/listing.rs`).
