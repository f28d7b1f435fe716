# slam_viz

A 3D trajectory visualizer for SLAM camera poses (wgpu + egui), built around
a library whose logic is verified with Verus.

## Layout

- `src/` — the verified library:
  - `playback.rs` — the player's frame state (seek, play/pause, ticks) and its laws;
  - `text.rs` — whitespace, trimming and splitting of character sequences;
  - `loader.rs` — the line structure of CSV pose files and the choice of reader by extension;
  - `panes.rs` — plot quantities, their labels and colours, pane titles, the position-plot window;
  - `scene.rs` — which poses are drawn as frustums;
  - `input.rs` — Blender-style drag modes and the numpad view presets.
- `app/` — the program: window and event loop (winit), GPU rendering (wgpu),
  the interface (egui, egui_plot, egui_tiles), file I/O and JSON parsing
  (serde_json), and everything measured in floating point (camera geometry,
  the playback clock, plot values).
- `tests/` — tests of the library.

## Data formats

JSON: an array of `{ "timestamp": t, "position": [x, y, z], "orientation": [qx, qy, qz, qw] }`.

CSV: `timestamp,px,py,pz,qx,qy,qz,qw` per line; the header row is optional and
lines starting with `#` are skipped.
