# naru

The window-management core of a scrolling Wayland compositor, verified with
Verus.

Windows are arranged in columns on a strip that scrolls sideways. Above the
columns there is a layer of floating windows, and at either side of a screen
there can be a panel of columns that stay in place.

- `src/layout/` holds the columns, the panels, the floating layer and the
  workspaces that put them together. The files whose names end in `_law` prove
  what holds of them as a whole: no operation loses a window, a window that is
  closed is gone, and a column that goes to a panel comes back to its place.
  Opening a window leaves the columns and their widths as they are. It may ask the
  geometry to fit a row that doesn't scroll, or to widen one that covers too little
  of the view. A column that grew for a window that moved into it gets its width
  back when the window moves on, and a restored session has its columns as they
  were.
- `src/config/` reads and merges the configuration: key binds, the layout
  section, the files that a configuration takes in, and what is used when a
  configuration can't be loaded.
- `src/compositor.rs` decides what a commit of a surface is about and where a new
  window goes, and `src/session.rs` how a session is restored.
- `src/introspect.rs` is the core of a service that tells other programs about
  the open windows.
- `tests/` runs the library, and `app/` connects it to files, Wayland and D-Bus.

Lengths and positions in logical pixels are doubles. The core carries them as
their bit patterns and leaves arithmetic on them to the geometry in `app/`: an
operation that needs some leaves a request in a queue, and the geometry reports
back what it found out.
