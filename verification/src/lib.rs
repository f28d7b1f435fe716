//! Verified core of the SLAM trajectory visualizer: the player's frame
//! state, the CSV pose-file scanner, the choice of loader, the plot and pane
//! catalogue, and the decisions the viewport takes on mouse and keyboard input.
pub mod playback;
pub mod text;
pub mod loader;
pub mod panes;
pub mod input;
pub mod scene;

pub use playback::{PlaybackState, TickPhase};
pub use loader::{format_for_extension, scan_csv, CsvRow, PoseFormat};
pub use panes::{PaneKind, PlotField, Rgb, TimePlotConfig};
pub use input::{DragControl, DragMode, PointerButton, ViewKey, ViewPreset};
