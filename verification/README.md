# tcode_ui

The logic of a desktop and mobile client for coding agents: the replica of a
workspace that a host publishes, the terminal drawer, themes, touch scrolling and
the controls of the interface. It is written in Rust and verified with Verus.

- `src/` is the library. Every function states what it returns or changes over
  mathematical models, and Verus proves it. Properties that span functions are
  proof functions whose names begin with `law_`.
  - `store` holds the replica: selection, history, drafts, deliveries, panels, and
    what views read of them.
  - `terminal` lays grids out, batches their text, keeps clean rows between frames,
    and decides what pointers, keys and composed text do.
  - `theme` reads theme files, resolves colours and keeps the registry of themes.
  - `touch_scroll`, `zoom`, `window_seam` and `widgets` decide about input and
    controls.
- `tests/` runs the library on concrete values.
- `app/` is the shell: the link to the host, the clock, files, and everything
  measured in fractions of a pixel.

What the library decides but cannot do itself comes out as effects, which the shell
carries out in their order.
