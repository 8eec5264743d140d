# tissues

A terminal client for Linear: a dashboard of up to six custom views, each
listing its issues, with commands to page through them, open an issue and
change its state, assignee, title and other fields.

The crate is verified with Verus.

- `src/` is the library; every function is proved against its contract
  except a few small trusted wrappers (below):
  the command keys and the state changes they make (`command.rs`), the
  dashboard's slot list and panel reuse (`dashboard.rs`), the paging and
  update bookkeeping of the requests (`dispatch.rs`), the table and layout
  computations behind each widget (`components/`, `util/`), due dates and
  the calendar (`linear/timezone_manager.rs`), and the configuration rules
  (`linear/config.rs`).  Calls into `textwrap`, `unicode-segmentation`,
  `unicode-width`, `colorsys`, `chrono`, `tui`'s layout solver and a few
  std functions (`str::parse`, `String::push`) stand
  behind trusted wrappers marked `#[verifier::external_body]`: Verus
  believes their contracts, which say what those crates and std promise,
  without proving them.
- `app/` is the program around it: the terminal, the input and tick
  threads, the GraphQL requests, files and environment, and the drawing.
- `tests/` runs the library on concrete values.
