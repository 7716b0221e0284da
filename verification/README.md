# hyprfloat

Tools that open, float, move and resize windows under Hyprland, placing floating windows
by a named position (`center`, `cursor`, `far`, corners, ...), keeping them inside the area
left free by bars and paddings, and sticking them to the borders they reach.

## Layout

- `src/` — the library, verified with Verus:
  - `placement.rs` — where a window goes on one axis for each `--position`;
  - `resize.rs` — resizing on one axis, with minimal sizes, the working area and stick tags;
  - `tags.rs` — the stick tags (`x_min`, `y_no_stick`, ...) and the commands that set them;
  - `layers.rs` — paddings widened by the bars on the monitor;
  - `config.rs`, `percent.rs` — the `[monitors]` section of `hf.toml` and sizes given in `%`/`$`;
  - `open.rs`, `toggle.rs`, `movewindow.rs` — the decisions of the `exec`, `togglefloating`
    and `movewindow` modes;
  - `cache.rs` — tables keyed by text (program to class, class to size);
  - `text.rs` — text helpers (decimal numbers, words, splitting);
  - `structs.rs`, `args.rs`, `data.rs`, `arith.rs` — the data types and small helpers.
- `tests/` — tests of the library on concrete values.
- `app/` — the `hfuni` program: command line, Hyprland IPC, files, the daemon's socket, and
  the arithmetic in floating point that turns shares of the screen into pixels.
