use slam_viz::panes::{position_plot_window, POSITION_PLOT_HALF_WINDOW};
use slam_viz::scene::{frustum_edge_indices, resized_surface, trail_length, visible_frustum_count, MAX_POSES};
use slam_viz::{PaneKind, PlotField, Rgb, TimePlotConfig};

#[test]
fn plot_field_labels_and_order() {
    let all = PlotField::all();
    assert_eq!(all.len(), 4);
    let labels: Vec<&str> = all.iter().map(|f| f.label()).collect();
    assert_eq!(labels, vec!["X", "Y", "Z", "Speed"]);
}

#[test]
fn plot_field_colors() {
    assert_eq!(PlotField::PositionX.default_color(), Rgb { r: 255, g: 80, b: 80 });
    assert_eq!(PlotField::PositionY.default_color(), Rgb { r: 80, g: 200, b: 80 });
    assert_eq!(PlotField::PositionZ.default_color(), Rgb { r: 80, g: 140, b: 255 });
    assert_eq!(PlotField::Speed.default_color(), Rgb { r: 255, g: 180, b: 50 });
    let cfg = TimePlotConfig::new(PlotField::Speed);
    assert_eq!(cfg.field, PlotField::Speed);
    assert_eq!(cfg.color, Rgb { r: 255, g: 180, b: 50 });
}

#[test]
fn pane_titles() {
    assert_eq!(PaneKind::View3D.title(), "3D View");
    assert_eq!(PaneKind::InfoPanel.title(), "Info");
    assert_eq!(PaneKind::MiniMap.title(), "Map");
    assert_eq!(PaneKind::PositionPlot.title(), "Position");
    assert_eq!(PaneKind::SpeedPlot.title(), "Speed");
    assert_eq!(PaneKind::PlotPicker.title(), "Plots");
    assert_eq!(PaneKind::TimePlot(TimePlotConfig::new(PlotField::PositionY)).title(), "Y");
}

#[test]
fn position_window_cases() {
    assert_eq!(POSITION_PLOT_HALF_WINDOW, 100);
    assert_eq!(position_plot_window(0, 0), None);
    assert_eq!(position_plot_window(0, 50), Some((0, 49)));
    assert_eq!(position_plot_window(150, 200), Some((50, 199)));
    assert_eq!(position_plot_window(500, 1000), Some((400, 600)));
}

#[test]
fn frustum_counts() {
    assert_eq!(visible_frustum_count(1, 0), 1);
    assert_eq!(visible_frustum_count(10, 3), 4);
    assert_eq!(visible_frustum_count(10, 50), 10);
    assert_eq!(visible_frustum_count(20_000, 15_000), MAX_POSES);
}

#[test]
fn trail_lengths() {
    assert_eq!(trail_length(10, 3), 4);
    assert_eq!(trail_length(10, 50), 10);
    assert_eq!(trail_length(20_000, 15_000), 15_001);
}

#[test]
fn frustum_wireframe_edges() {
    assert_eq!(frustum_edge_indices(), [0, 1, 0, 2, 0, 3, 0, 4, 1, 2, 2, 3, 3, 4, 4, 1]);
}

#[test]
fn surface_follows_window_with_area() {
    assert_eq!(resized_surface(800, 600), Some((800, 600)));
    assert_eq!(resized_surface(0, 600), None);
    assert_eq!(resized_surface(800, 0), None);
}
