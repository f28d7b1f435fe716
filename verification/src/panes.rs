//! The catalogue of panes and plots: what each pane is called, which
//! quantities can be plotted against time and in which colour, and which
//! frames the position plot shows.
use vstd::prelude::*;

verus! {

/// An opaque 8-bit RGB colour.
#[derive(Clone, Copy, Debug, PartialEq, Eq, Structural)]
pub struct Rgb {
    pub r: u8,
    pub g: u8,
    pub b: u8,
}

/// A quantity of the trajectory that can be plotted against time.
#[derive(Clone, Copy, Debug, PartialEq, Eq, Structural)]
pub enum PlotField {
    PositionX,
    PositionY,
    PositionZ,
    Speed,
}

/// The label of a plotted quantity.
pub open spec fn field_label(f: PlotField) -> Seq<char> {
    match f {
        PlotField::PositionX => seq!['X'],
        PlotField::PositionY => seq!['Y'],
        PlotField::PositionZ => seq!['Z'],
        PlotField::Speed => seq!['S', 'p', 'e', 'e', 'd'],
    }
}

/// The colour a plotted quantity is drawn in unless configured otherwise.
pub open spec fn field_color(f: PlotField) -> Rgb {
    match f {
        PlotField::PositionX => Rgb { r: 255, g: 80, b: 80 },
        PlotField::PositionY => Rgb { r: 80, g: 200, b: 80 },
        PlotField::PositionZ => Rgb { r: 80, g: 140, b: 255 },
        PlotField::Speed => Rgb { r: 255, g: 180, b: 50 },
    }
}

/// Every plottable quantity, in menu order.
pub open spec fn all_fields() -> Seq<PlotField> {
    seq![PlotField::PositionX, PlotField::PositionY, PlotField::PositionZ, PlotField::Speed]
}

impl PlotField {
    /// The label shown for this quantity: `X`, `Y`, `Z` or `Speed`.
    pub fn label(&self) -> (r: &str)
        ensures
            r@ == field_label(*self),
    {
        match self {
            PlotField::PositionX => {
                proof {
                    reveal_strlit("X");
                    assert("X"@ =~= seq!['X']);
                }
                "X"
            },
            PlotField::PositionY => {
                proof {
                    reveal_strlit("Y");
                    assert("Y"@ =~= seq!['Y']);
                }
                "Y"
            },
            PlotField::PositionZ => {
                proof {
                    reveal_strlit("Z");
                    assert("Z"@ =~= seq!['Z']);
                }
                "Z"
            },
            PlotField::Speed => {
                proof {
                    reveal_strlit("Speed");
                    assert("Speed"@ =~= seq!['S', 'p', 'e', 'e', 'd']);
                }
                "Speed"
            },
        }
    }

    /// The default colour of this quantity's line.
    pub fn default_color(&self) -> (r: Rgb)
        ensures
            r == field_color(*self),
    {
        match self {
            PlotField::PositionX => Rgb { r: 255, g: 80, b: 80 },
            PlotField::PositionY => Rgb { r: 80, g: 200, b: 80 },
            PlotField::PositionZ => Rgb { r: 80, g: 140, b: 255 },
            PlotField::Speed => Rgb { r: 255, g: 180, b: 50 },
        }
    }

    /// Every plottable quantity: X, Y, Z, then speed.
    pub fn all() -> (r: &'static [PlotField])
        ensures
            r@ == all_fields(),
    {
        let r: &'static [PlotField] = &[
            PlotField::PositionX,
            PlotField::PositionY,
            PlotField::PositionZ,
            PlotField::Speed,
        ];
        assert(r@ =~= all_fields());
        r
    }
}

/// A time plot: the quantity it shows and the colour of its line.
#[derive(Clone, Copy, Debug, PartialEq, Eq, Structural)]
pub struct TimePlotConfig {
    pub field: PlotField,
    pub color: Rgb,
}

impl TimePlotConfig {
    /// A time plot of `field` in its default colour.
    pub fn new(field: PlotField) -> (r: Self)
        ensures
            r == (TimePlotConfig { field, color: field_color(field) }),
    {
        let color = field.default_color();
        TimePlotConfig { field, color }
    }
}

/// A kind of pane of the tiled layout.
#[derive(Clone, Copy, Debug, PartialEq, Eq, Structural)]
pub enum PaneKind {
    View3D,
    InfoPanel,
    MiniMap,
    PositionPlot,
    SpeedPlot,
    TimePlot(TimePlotConfig),
    PlotPicker,
}

/// The tab title of a pane.
pub open spec fn pane_title(p: PaneKind) -> Seq<char> {
    match p {
        PaneKind::View3D => seq!['3', 'D', ' ', 'V', 'i', 'e', 'w'],
        PaneKind::InfoPanel => seq!['I', 'n', 'f', 'o'],
        PaneKind::MiniMap => seq!['M', 'a', 'p'],
        PaneKind::PositionPlot => seq!['P', 'o', 's', 'i', 't', 'i', 'o', 'n'],
        PaneKind::SpeedPlot => seq!['S', 'p', 'e', 'e', 'd'],
        PaneKind::TimePlot(cfg) => field_label(cfg.field),
        PaneKind::PlotPicker => seq!['P', 'l', 'o', 't', 's'],
    }
}

impl PaneKind {
    /// The tab title of this pane; a time plot is titled by its quantity.
    pub fn title(&self) -> (r: &str)
        ensures
            r@ == pane_title(*self),
    {
        match self {
            PaneKind::View3D => {
                proof {
                    reveal_strlit("3D View");
                    assert("3D View"@ =~= seq!['3', 'D', ' ', 'V', 'i', 'e', 'w']);
                }
                "3D View"
            },
            PaneKind::InfoPanel => {
                proof {
                    reveal_strlit("Info");
                    assert("Info"@ =~= seq!['I', 'n', 'f', 'o']);
                }
                "Info"
            },
            PaneKind::MiniMap => {
                proof {
                    reveal_strlit("Map");
                    assert("Map"@ =~= seq!['M', 'a', 'p']);
                }
                "Map"
            },
            PaneKind::PositionPlot => {
                proof {
                    reveal_strlit("Position");
                    assert("Position"@ =~= seq!['P', 'o', 's', 'i', 't', 'i', 'o', 'n']);
                }
                "Position"
            },
            PaneKind::SpeedPlot => {
                proof {
                    reveal_strlit("Speed");
                    assert("Speed"@ =~= seq!['S', 'p', 'e', 'e', 'd']);
                }
                "Speed"
            },
            PaneKind::TimePlot(cfg) => cfg.field.label(),
            PaneKind::PlotPicker => {
                proof {
                    reveal_strlit("Plots");
                    assert("Plots"@ =~= seq!['P', 'l', 'o', 't', 's']);
                }
                "Plots"
            },
        }
    }
}

/// How many frames the position plot shows on each side of the current one.
pub const POSITION_PLOT_HALF_WINDOW: usize = 100;

/// The frames `(first, last)` the position plot shows around `frame`, out of
/// `n_poses`; `None` when there are no poses.
pub open spec fn position_window(frame: nat, n_poses: nat) -> Option<(nat, nat)> {
    if n_poses == 0 {
        None
    } else {
        let first: nat = if frame >= 100 { (frame - 100) as nat } else { 0 };
        let last: nat = if frame + 100 <= n_poses - 1 { frame + 100 } else { (n_poses - 1) as nat };
        Some((first, last))
    }
}

/// The frames the position plot shows: up to 100 on each side of `frame`,
/// cut to the poses that exist.
pub fn position_plot_window(frame: usize, n_poses: usize) -> (r: Option<(usize, usize)>)
    requires
        frame <= usize::MAX - POSITION_PLOT_HALF_WINDOW,
        n_poses > 0 ==> frame <= n_poses - 1 + POSITION_PLOT_HALF_WINDOW,
    ensures
        match r {
            None => position_window(frame as nat, n_poses as nat) is None,
            Some((a, b)) => position_window(frame as nat, n_poses as nat) == Some(
                (a as nat, b as nat),
            ),
        },
        r matches Some((a, b)) ==> a <= b < n_poses,
        r is None <==> n_poses == 0,
        r matches Some((a, b)) ==> b <= frame + 100 && (b == frame + 100 || b == n_poses - 1)
            && b + 1 <= n_poses,
        r matches Some((a, b)) ==> a <= frame && (a == 0 || a + 100 == frame) && a + 100 >= frame,
{
    if n_poses == 0 {
        return None;
    }
    let first: usize = frame.saturating_sub(POSITION_PLOT_HALF_WINDOW);
    let reach: usize = frame + POSITION_PLOT_HALF_WINDOW;
    let last: usize = if reach <= n_poses - 1 { reach } else { n_poses - 1 };
    Some((first, last))
}

/// The position plot shows at most 100 frames on each side of the current
/// one: it starts 100 frames before it (or at the first frame) and ends 100
/// frames after it (or at the last pose).
pub proof fn lemma_position_window_bounds(frame: nat, n_poses: nat)
    requires
        n_poses > 0,
    ensures
        position_window(frame, n_poses) matches Some((a, b)) && a <= frame && a + 100 >= frame
            && (a == 0 || a + 100 == frame) && b <= frame + 100 && b < n_poses && (b == frame + 100
            || b == n_poses - 1) && (frame + 100 < n_poses ==> b == frame + 100) && (frame >= 100
            ==> a + 100 == frame),
        position_window(frame, 0) is None,
{
}

/// The window always holds the current frame when that frame exists, and
/// never more than 201 frames.
pub proof fn lemma_position_window(frame: nat, n_poses: nat)
    requires
        frame < n_poses,
    ensures
        position_window(frame, n_poses) matches Some((a, b)) && a <= frame <= b && b - a <= 200
            && b < n_poses,
{
}

/// A time plot is titled by its quantity, and every quantity has its own
/// label and its own colour.
pub proof fn lemma_titles_and_colors(f: PlotField, g: PlotField)
    ensures
        pane_title(PaneKind::TimePlot(TimePlotConfig { field: f, color: field_color(g) }))
            == field_label(f),
        f != g ==> field_label(f) != field_label(g),
        f != g ==> field_color(f) != field_color(g),
        all_fields().contains(f),
        all_fields().no_duplicates(),
{
    assert(all_fields()[0] == PlotField::PositionX);
    assert(all_fields()[1] == PlotField::PositionY);
    assert(all_fields()[2] == PlotField::PositionZ);
    assert(all_fields()[3] == PlotField::Speed);
    if f != g {
        assert(field_label(f).len() != field_label(g).len() || field_label(f)[0] != field_label(
            g,
        )[0]);
    }
}

} // verus!
