//! What a display mode is configured with and what it hands to the backend.

use vstd::prelude::*;
use crate::fixed::div_toward_zero;
use crate::fixed::SCALE_ONE;

verus! {

/// A terminal colour, as the backend names them.
#[derive(Clone, Copy, Debug, PartialEq, Eq, Structural)]
pub enum Color {
    Reset,
    Black,
    Red,
    Green,
    Yellow,
    Blue,
    Magenta,
    Cyan,
    Gray,
    DarkGray,
    LightRed,
    LightGreen,
    LightYellow,
    LightBlue,
    LightMagenta,
    LightCyan,
    White,
    Rgb(u8, u8, u8),
    Indexed(u8),
}

/// An axis of the plot.
#[derive(Clone, Copy, Debug, PartialEq, Eq, Structural)]
pub enum Dimension {
    X,
    Y,
}

/// Whether the backend joins the points of a dataset in index order.
#[derive(Clone, Copy, Debug, PartialEq, Eq, Structural)]
pub enum GraphType {
    /// Independent points.
    Scatter,
    /// A polyline through the points.
    Line,
}

/// The per-frame configuration of a display mode.
#[derive(Clone, Debug)]
pub struct GraphConfig {
    /// Hold the last geometry instead of computing a new one.
    pub pause: bool,
    /// Window length: samples per channel that a frame shows.
    pub samples: u32,
    /// Samples per second; labels the time axis only.
    pub sampling_rate: u32,
    /// Amplitude multiplier, in thousandths.
    pub scale: u32,
    /// Horizontal resolution in cells.
    pub width: u32,
    /// Draw independent points instead of lines.
    pub scatter: bool,
    /// Draw the reference line.
    pub references: bool,
    /// Draw titles and labels; read by the backend alone.
    pub show_ui: bool,
    /// Colours of the channels, in order.
    pub palette: Vec<Color>,
    /// Colour of the axis labels.
    pub labels_color: Color,
    /// Colour of the axis lines and of the reference line.
    pub axis_color: Color,
}

/// The colour of channel `index`: the palette, wrapping; white where the
/// palette is empty.
pub open spec fn palette_color(palette: Seq<Color>, index: int) -> Color {
    if palette.len() == 0 {
        Color::White
    } else {
        palette[index % (palette.len() as int)]
    }
}

impl GraphConfig {
    /// The colour of channel `index`.
    pub fn palette(&self, index: usize) -> (color: Color)
        ensures
            color == palette_color(self.palette@, index as int),
    {
        if self.palette.len() == 0 {
            Color::White
        } else {
            self.palette[index % self.palette.len()]
        }
    }
}

impl Default for GraphConfig {
    /// Everything off, zero or empty; the colours are the terminal's own.
    fn default() -> (config: Self)
        ensures
            !config.pause && !config.scatter && !config.references && !config.show_ui,
            config.samples == 0 && config.sampling_rate == 0 && config.scale == 0 && config.width
                == 0,
            config.palette@.len() == 0,
            config.labels_color == Color::Reset && config.axis_color == Color::Reset,
    {
        GraphConfig {
            pause: false,
            samples: 0,
            sampling_rate: 0,
            scale: 0,
            width: 0,
            scatter: false,
            references: false,
            show_ui: false,
            palette: Vec::new(),
            labels_color: Color::Reset,
            axis_color: Color::Reset,
        }
    }
}

/// One drawable trace: its points, how they connect, and its colour.
#[derive(Clone, Debug, PartialEq, Eq)]
pub struct DataSet {
    /// `(x, y)` pairs in billionths.
    pub points: Vec<(i64, i64)>,
    pub graph_type: GraphType,
    pub color: Color,
}

/// A trace as a mathematical value.
pub struct Trace {
    pub points: Seq<(int, int)>,
    pub graph_type: GraphType,
    pub color: Color,
}

/// The points of a trace as pairs of integers.
pub open spec fn points_view(points: Seq<(i64, i64)>) -> Seq<(int, int)> {
    Seq::new(points.len(), |i: int| (points[i].0 as int, points[i].1 as int))
}

impl View for DataSet {
    type V = Trace;

    open spec fn view(&self) -> Trace {
        Trace {
            points: points_view(self.points@),
            graph_type: self.graph_type,
            color: self.color,
        }
    }
}

/// A list of traces as mathematical values.
pub open spec fn traces(sets: Seq<DataSet>) -> Seq<Trace> {
    Seq::new(sets.len(), |i: int| sets[i]@)
}

impl DataSet {
    /// A copy of the trace.
    pub fn duplicate(&self) -> (copy: DataSet)
        ensures
            copy@ == self@,
            copy.points@ == self.points@,
    {
        let mut points: Vec<(i64, i64)> = Vec::new();
        let mut i: usize = 0;
        while i < self.points.len()
            invariant
                i <= self.points@.len(),
                points@ == self.points@.take(i as int),
            decreases self.points@.len() - i,
        {
            points.push(self.points[i]);
            i += 1;
        }
        assert(points@ =~= self.points@);
        DataSet { points, graph_type: self.graph_type, color: self.color }
    }
}

/// A copy of a list of traces.
pub fn duplicate_all(sets: &Vec<DataSet>) -> (copy: Vec<DataSet>)
    ensures
        traces(copy@) == traces(sets@),
{
    let mut copy: Vec<DataSet> = Vec::new();
    let mut i: usize = 0;
    while i < sets.len()
        invariant
            i <= sets@.len(),
            copy@.len() == i,
            forall|k: int| 0 <= k < i ==> (#[trigger] copy@[k])@ == sets@[k]@,
        decreases sets@.len() - i,
    {
        copy.push(sets[i].duplicate());
        i += 1;
    }
    copy
}

/// The step that a base step and a multiplier in thousandths make, rounded
/// toward zero.
pub open spec fn scaled_step(base: int, magnitude: int) -> int {
    div_toward_zero(base * magnitude, SCALE_ONE as int)
}

/// `value + delta`, held to `[lo, hi]`: the upper bound is tested first.
pub open spec fn stepped_closed(value: int, delta: int, lo: int, hi: int) -> int {
    if value + delta > hi {
        hi
    } else if value + delta < lo {
        lo
    } else {
        value + delta
    }
}

/// `target` held to the half-open `[lo, hi)`; `lo` where that is empty.
pub open spec fn held_half_open(target: int, lo: int, hi: int) -> int {
    let capped = if target > hi - 1 {
        hi - 1
    } else {
        target
    };
    if capped < lo {
        lo
    } else {
        capped
    }
}

/// Moves a fixed-point setting by `base * magnitude`, `magnitude` in
/// thousandths, and holds it to the closed range `[lo, hi]`.
pub fn update_value_f(value: &mut u32, base: i32, magnitude: u32, lo: u32, hi: u32)
    ensures
        *final(value) == stepped_closed(
            *old(value) as int,
            scaled_step(base as int, magnitude as int),
            lo as int,
            hi as int,
        ),
{
    assert(-0x7fff_ffff_8000_0000 <= base * magnitude <= 0x7fff_fffe_8000_0001)
        by (nonlinear_arith)
        requires
            -0x8000_0000 <= base <= 0x7fff_ffff,
            0 <= magnitude <= 0xffff_ffff,
    ;
    let product: i64 = (base as i64) * (magnitude as i64);
    let delta: i64 = if product >= 0 {
        product / 1000
    } else {
        -((-product) / 1000)
    };
    let target: i64 = (*value as i64) + delta;
    if target > hi as i64 {
        *value = hi;
    } else if target < lo as i64 {
        *value = lo;
    } else {
        *value = target as u32;
    }
}

/// Moves a count up or down by `base * magnitude`, `magnitude` in
/// thousandths and the step rounded toward zero, and holds it to the
/// half-open range `[lo, hi)`.
pub fn update_value_i(value: &mut u32, up: bool, base: u32, magnitude: u32, lo: u32, hi: u32)
    ensures
        *final(value) == held_half_open(
            if up {
                *old(value) + scaled_step(base as int, magnitude as int)
            } else {
                *old(value) - scaled_step(base as int, magnitude as int)
            },
            lo as int,
            hi as int,
        ),
{
    assert(0 <= base * magnitude <= 0xffff_fffe_0000_0001) by (nonlinear_arith)
        requires
            0 <= base <= 0xffff_ffff,
            0 <= magnitude <= 0xffff_ffff,
    ;
    let delta: i128 = ((base as i128) * (magnitude as i128)) / 1000;
    let target: i128 = if up {
        (*value as i128) + delta
    } else {
        (*value as i128) - delta
    };
    let capped: i128 = if target > (hi as i128) - 1 {
        (hi as i128) - 1
    } else {
        target
    };
    if capped < lo as i128 {
        *value = lo;
    } else {
        *value = capped as u32;
    }
}

} // verus!
