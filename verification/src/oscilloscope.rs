//! The oscilloscope: from per-channel samples to drawable traces.
//!
//! A frame shows the most recent `samples` values of each channel. In the
//! time domain each channel is a trace of amplitude over the width of the
//! plot; as a vectorscope each pair of channels is one X/Y trace.

use vstd::prelude::*;
use vstd::arithmetic::div_mod::lemma_multiply_divide_le;
use vstd::arithmetic::div_mod::lemma_div_pos_is_pos;
use vstd::string::StringExecFns;
use crate::display::Color;
use crate::display::Dimension;
use crate::display::scaled_step;
use crate::display::stepped_closed;
use crate::display::held_half_open;
use crate::display::update_value_f;
use crate::display::update_value_i;
use crate::event::Event;
use crate::event::KeyCode;
use crate::text::push_thousandths;
use crate::text::thousandths_text;
use crate::display::DataSet;
use crate::display::GraphConfig;
use crate::display::GraphType;
use crate::display::Trace;
use crate::display::palette_color;
use crate::display::points_view;
use crate::display::traces;
use crate::display::duplicate_all;
use crate::fixed::COORD_ONE;
use crate::fixed::SAMPLE_ONE;
use crate::input::Matrix;

verus! {

/// The number of samples per channel that a frame shows: the configured
/// window, or all of the first channel where that is shorter.
pub open spec fn window_len(samples: int, matrix: Seq<Seq<i32>>) -> int {
    if matrix.len() == 0 {
        0
    } else if matrix[0].len() < samples {
        matrix[0].len() as int
    } else {
        samples
    }
}

/// Sample `i` of the window on `channel`: the last `window` samples of the
/// channel, and zeros after them where the channel is shorter.
pub open spec fn window_sample(channel: Seq<i32>, window: int, i: int) -> int {
    let kept = if channel.len() < window {
        channel.len() as int
    } else {
        window
    };
    if i < kept {
        channel[channel.len() - kept + i] as int
    } else {
        0
    }
}

/// Where sample `i` of `window` stands on a time axis `width` cells long, in
/// billionths of a cell, rounded down.
pub open spec fn time_x(i: int, window: int, width: int) -> int {
    i * width * COORD_ONE / window
}

/// Whether the points of a trace connect.
pub open spec fn graph_type_of(scatter: bool) -> GraphType {
    if scatter {
        GraphType::Scatter
    } else {
        GraphType::Line
    }
}

/// The points of one channel over time.
pub open spec fn time_points(channel: Seq<i32>, window: int, width: int, scale: int) -> Seq<
    (int, int),
> {
    Seq::new(
        window as nat,
        |i: int| (time_x(i, window, width), window_sample(channel, window, i) * scale),
    )
}

/// The points of one channel against another.
pub open spec fn pair_points(
    horizontal: Seq<i32>,
    vertical: Seq<i32>,
    window: int,
    scale: int,
) -> Seq<(int, int)> {
    Seq::new(
        window as nat,
        |i: int|
            (
                window_sample(horizontal, window, i) * scale,
                window_sample(vertical, window, i) * scale,
            ),
    )
}

/// The trace of channel `c` in the time domain.
pub open spec fn channel_trace(cfg: GraphConfig, matrix: Seq<Seq<i32>>, c: int) -> Trace {
    Trace {
        points: time_points(
            matrix[c],
            window_len(cfg.samples as int, matrix),
            cfg.width as int,
            cfg.scale as int,
        ),
        graph_type: graph_type_of(cfg.scatter),
        color: palette_color(cfg.palette@, c),
    }
}

/// The trace of the channel pair `(2k, 2k + 1)` of a vectorscope.
pub open spec fn pair_trace(cfg: GraphConfig, matrix: Seq<Seq<i32>>, k: int) -> Trace {
    Trace {
        points: pair_points(
            matrix[2 * k],
            matrix[2 * k + 1],
            window_len(cfg.samples as int, matrix),
            cfg.scale as int,
        ),
        graph_type: graph_type_of(cfg.scatter),
        color: palette_color(cfg.palette@, k),
    }
}

/// The reference in the time domain: the zero line across the plot.
pub open spec fn zero_line(width: int) -> Seq<(int, int)> {
    seq![(0int, 0int), (width * COORD_ONE, 0int)]
}

/// The reference of a vectorscope: a cross through the origin that reaches
/// the bounds of both axes, as one polyline.
pub open spec fn crosshair(scale: int) -> Seq<(int, int)> {
    let reach = scale * SAMPLE_ONE;
    seq![(-reach, 0int), (reach, 0int), (0int, 0int), (0int, -reach), (0int, reach)]
}

/// The reference trace of a mode.
pub open spec fn reference_trace(cfg: GraphConfig, vectorscope: bool) -> Trace {
    Trace {
        points: if vectorscope {
            crosshair(cfg.scale as int)
        } else {
            zero_line(cfg.width as int)
        },
        graph_type: GraphType::Line,
        color: cfg.axis_color,
    }
}

/// The traces of the signal alone: one per channel in the time domain, one
/// per full pair of channels in a vectorscope, where a last odd channel is
/// left out.
pub open spec fn signal_traces(cfg: GraphConfig, matrix: Seq<Seq<i32>>, vectorscope: bool) -> Seq<
    Trace,
> {
    if vectorscope {
        Seq::new(matrix.len() / 2, |k: int| pair_trace(cfg, matrix, k))
    } else {
        Seq::new(matrix.len(), |c: int| channel_trace(cfg, matrix, c))
    }
}

/// A whole frame: the signal, then the reference where it is switched on.
pub open spec fn rendered(cfg: GraphConfig, matrix: Seq<Seq<i32>>, vectorscope: bool) -> Seq<
    Trace,
> {
    if cfg.references {
        signal_traces(cfg, matrix, vectorscope).push(reference_trace(cfg, vectorscope))
    } else {
        signal_traces(cfg, matrix, vectorscope)
    }
}

/// What `process` hands out after the frame `before`: `before` again while
/// the configuration pauses, a new frame otherwise.
pub open spec fn next_frame(
    before: Seq<Trace>,
    cfg: GraphConfig,
    matrix: Seq<Seq<i32>>,
    vectorscope: bool,
) -> Seq<Trace> {
    if cfg.pause {
        before
    } else {
        rendered(cfg, matrix, vectorscope)
    }
}

/// Sample `i` of the window on `channel`.
fn sample_at(channel: &Vec<i32>, window: u32, i: u32) -> (sample: i32)
    requires
        i < window,
    ensures
        sample == window_sample(channel@, window as int, i as int),
{
    let len: usize = channel.len();
    let kept: usize = if len < window as usize {
        len
    } else {
        window as usize
    };
    if (i as usize) < kept {
        channel[len - kept + i as usize]
    } else {
        0
    }
}

/// A sample times a scale, in billionths.
fn scaled(sample: i32, scale: u32) -> (coordinate: i64)
    ensures
        coordinate == sample * scale,
{
    assert(-0x7fff_ffff_8000_0000 <= sample * scale <= 0x7fff_fffe_8000_0001)
        by (nonlinear_arith)
        requires
            -0x8000_0000 <= sample <= 0x7fff_ffff,
            0 <= scale <= 0xffff_ffff,
    ;
    (sample as i64) * (scale as i64)
}

/// Where sample `i` of `window` stands on the time axis.
fn time_coordinate(i: u32, window: u32, width: u32) -> (x: i64)
    requires
        i < window,
    ensures
        x == time_x(i as int, window as int, width as int),
{
    proof {
        assert(0 <= i * width * COORD_ONE <= window * (width * COORD_ONE)) by (nonlinear_arith)
            requires
                0 <= i < window,
                0 <= width,
                COORD_ONE == 1_000_000_000,
        ;
        assert(0 <= i * width <= 0xffff_fffe_0000_0001) by (nonlinear_arith)
            requires
                0 <= i <= 0xffff_ffff,
                0 <= width <= 0xffff_ffff,
        ;
        lemma_multiply_divide_le(i * width * COORD_ONE, window as int, width * COORD_ONE);
        lemma_div_pos_is_pos(i * width * COORD_ONE, window as int);
    }
    let numerator: u128 = (i as u128) * (width as u128) * 1_000_000_000;
    (numerator / (window as u128)) as i64
}

/// What a key asks of the oscilloscope.
#[derive(Clone, Copy, Debug, PartialEq, Eq, Structural)]
pub enum Intent {
    /// Up: a larger scale.
    ScaleUp,
    /// Down: a smaller scale.
    ScaleDown,
    /// Right: a longer window.
    Widen,
    /// Left: a shorter window.
    Narrow,
    /// `s`: points or lines.
    ToggleScatter,
    /// Space: hold or release the frame.
    TogglePause,
    /// `r`: show or hide the reference.
    ToggleReference,
    /// `v`: time domain or vectorscope.
    ToggleMode,
}

/// One step of the scale: a hundredth, in thousandths.
pub const SCALE_STEP: i32 = 10;

/// The highest scale, ten, in thousandths.
pub const SCALE_MAX: u32 = 10_000;

/// One step of the window, in samples.
pub const WINDOW_STEP: u32 = 25;

/// What an event asks for; nothing for an event that is no such key.
pub open spec fn intent_of(event: Event) -> Option<Intent> {
    match event {
        Event::Key(key) => match key.code {
            KeyCode::Up => Some(Intent::ScaleUp),
            KeyCode::Down => Some(Intent::ScaleDown),
            KeyCode::Right => Some(Intent::Widen),
            KeyCode::Left => Some(Intent::Narrow),
            KeyCode::Char(c) => if c == 's' {
                Some(Intent::ToggleScatter)
            } else if c == ' ' {
                Some(Intent::TogglePause)
            } else if c == 'r' {
                Some(Intent::ToggleReference)
            } else if c == 'v' {
                Some(Intent::ToggleMode)
            } else {
                None
            },
            _ => None,
        },
        _ => None,
    }
}

/// The step multiplier of an event: that of a key's modifiers.
pub open spec fn magnitude_of(event: Event) -> int {
    match event {
        Event::Key(key) => key.modifiers.magnitude_spec() as int,
        _ => 1_000,
    }
}

/// The scale after an event: a step up or down, times the multiplier, held
/// to `[0, 10]`.
pub open spec fn scale_after(scale: int, event: Event) -> int {
    match intent_of(event) {
        Some(Intent::ScaleUp) => stepped_closed(
            scale,
            scaled_step(SCALE_STEP as int, magnitude_of(event)),
            0,
            SCALE_MAX as int,
        ),
        Some(Intent::ScaleDown) => stepped_closed(
            scale,
            scaled_step(-SCALE_STEP, magnitude_of(event)),
            0,
            SCALE_MAX as int,
        ),
        _ => scale,
    }
}

/// The window after an event: a step longer or shorter, times the
/// multiplier, held to `[0, 2 * width)`.
pub open spec fn samples_after(samples: int, width: int, event: Event) -> int {
    match intent_of(event) {
        Some(Intent::Widen) => held_half_open(
            samples + scaled_step(WINDOW_STEP as int, magnitude_of(event)),
            0,
            2 * width,
        ),
        Some(Intent::Narrow) => held_half_open(
            samples - scaled_step(WINDOW_STEP as int, magnitude_of(event)),
            0,
            2 * width,
        ),
        _ => samples,
    }
}

/// What an event asks for.
pub fn recognize(event: &Event) -> (intent: Option<Intent>)
    ensures
        intent == intent_of(*event),
{
    match event {
        Event::Key(key) => match key.code {
            KeyCode::Up => Some(Intent::ScaleUp),
            KeyCode::Down => Some(Intent::ScaleDown),
            KeyCode::Right => Some(Intent::Widen),
            KeyCode::Left => Some(Intent::Narrow),
            KeyCode::Char(c) => if c == 's' {
                Some(Intent::ToggleScatter)
            } else if c == ' ' {
                Some(Intent::TogglePause)
            } else if c == 'r' {
                Some(Intent::ToggleReference)
            } else if c == 'v' {
                Some(Intent::ToggleMode)
            } else {
                None
            },
            _ => None,
        },
        _ => None,
    }
}

/// The bounds and tick labels of one axis.
#[derive(Clone, Debug, PartialEq, Eq)]
pub struct AxisDescriptor {
    /// The lowest coordinate on the axis, in billionths.
    pub lower: i64,
    /// The highest coordinate on the axis, in billionths.
    pub upper: i64,
    /// The tick labels, from the lowest coordinate up.
    pub labels: Vec<String>,
    /// The colour of the axis line.
    pub color: Color,
    /// The colour of the labels.
    pub labels_color: Color,
}

/// The texts of a list of labels.
pub open spec fn label_texts(labels: Seq<String>) -> Seq<Seq<char>> {
    Seq::new(labels.len(), |i: int| labels[i]@)
}

/// Whether an axis measures time: the X axis in the time domain. Every
/// other axis measures amplitude.
pub open spec fn is_time_axis(vectorscope: bool, dimension: Dimension) -> bool {
    !vectorscope && dimension == Dimension::X
}

/// The bounds of an axis: from zero to the width of the plot for time, and
/// symmetric about zero at the scale for amplitude.
pub open spec fn axis_bounds(cfg: GraphConfig, vectorscope: bool, dimension: Dimension) -> (
    int,
    int,
) {
    if is_time_axis(vectorscope, dimension) {
        (0, cfg.width * COORD_ONE)
    } else {
        (-(cfg.scale * SAMPLE_ONE), cfg.scale * SAMPLE_ONE)
    }
}

/// The time that one window spans, in microseconds, rounded down.
pub open spec fn window_micros(cfg: GraphConfig) -> int {
    cfg.samples * 1_000_000 / (cfg.sampling_rate as int)
}

/// The labels of an axis. Time: `0` and the span of the window in
/// milliseconds, which is left out where the sampling rate is zero.
/// Amplitude: minus the scale, `0`, and the scale.
pub open spec fn axis_labels(cfg: GraphConfig, vectorscope: bool, dimension: Dimension) -> Seq<
    Seq<char>,
> {
    if is_time_axis(vectorscope, dimension) {
        if cfg.sampling_rate == 0 {
            seq![seq!['0']]
        } else {
            seq![seq!['0'], thousandths_text(window_micros(cfg) as nat) + seq!['m', 's']]
        }
    } else {
        seq![
            seq!['-'] + thousandths_text(cfg.scale as nat),
            seq!['0'],
            thousandths_text(cfg.scale as nat),
        ]
    }
}

/// The view of a matrix, channel by channel.
proof fn lemma_matrix_view(data: &Matrix, c: int)
    requires
        0 <= c < data@.len(),
    ensures
        data.deep_view().len() == data@.len(),
        data.deep_view()[c] == data@[c]@,
{
}

/// The window of a frame on `data`.
fn frame_window(cfg: &GraphConfig, data: &Matrix) -> (window: u32)
    ensures
        window == window_len(cfg.samples as int, data.deep_view()),
{
    if data.len() == 0 {
        0
    } else {
        proof {
            lemma_matrix_view(data, 0);
        }
        let len: usize = data[0].len();
        if len < cfg.samples as usize {
            len as u32
        } else {
            cfg.samples
        }
    }
}

/// The trace of channel `c` over time.
fn time_set(cfg: &GraphConfig, data: &Matrix, window: u32, c: usize) -> (set: DataSet)
    requires
        c < data@.len(),
        window == window_len(cfg.samples as int, data.deep_view()),
    ensures
        set@ == channel_trace(*cfg, data.deep_view(), c as int),
{
    proof {
        lemma_matrix_view(data, c as int);
    }
    let channel: &Vec<i32> = &data[c];
    let mut points: Vec<(i64, i64)> = Vec::new();
    let mut i: u32 = 0;
    while i < window
        invariant
            i <= window,
            points@.len() == i,
            forall|j: int|
                0 <= j < i ==> (#[trigger] points@[j]).0 == time_x(j, window as int, cfg.width as int)
                    && points@[j].1 == window_sample(channel@, window as int, j) * cfg.scale,
        decreases window - i,
    {
        let x: i64 = time_coordinate(i, window, cfg.width);
        let y: i64 = scaled(sample_at(channel, window, i), cfg.scale);
        points.push((x, y));
        i += 1;
    }
    assert(points_view(points@) =~= time_points(
        channel@,
        window as int,
        cfg.width as int,
        cfg.scale as int,
    ));
    DataSet {
        points,
        graph_type: if cfg.scatter {
            GraphType::Scatter
        } else {
            GraphType::Line
        },
        color: cfg.palette(c),
    }
}

/// The trace of the channel pair `(2k, 2k + 1)`.
fn pair_set(cfg: &GraphConfig, data: &Matrix, window: u32, k: usize) -> (set: DataSet)
    requires
        2 * k + 1 < data@.len(),
        window == window_len(cfg.samples as int, data.deep_view()),
    ensures
        set@ == pair_trace(*cfg, data.deep_view(), k as int),
{
    proof {
        lemma_matrix_view(data, 2 * k);
        lemma_matrix_view(data, 2 * k + 1);
    }
    let channels: usize = data.len();
    let horizontal: &Vec<i32> = &data[2 * k];
    let vertical: &Vec<i32> = &data[2 * k + 1];
    let mut points: Vec<(i64, i64)> = Vec::new();
    let mut i: u32 = 0;
    while i < window
        invariant
            i <= window,
            points@.len() == i,
            forall|j: int|
                0 <= j < i ==> (#[trigger] points@[j]).0 == window_sample(
                    horizontal@,
                    window as int,
                    j,
                ) * cfg.scale && points@[j].1 == window_sample(vertical@, window as int, j)
                    * cfg.scale,
        decreases window - i,
    {
        let x: i64 = scaled(sample_at(horizontal, window, i), cfg.scale);
        let y: i64 = scaled(sample_at(vertical, window, i), cfg.scale);
        points.push((x, y));
        i += 1;
    }
    assert(points_view(points@) =~= pair_points(
        horizontal@,
        vertical@,
        window as int,
        cfg.scale as int,
    ));
    DataSet {
        points,
        graph_type: if cfg.scatter {
            GraphType::Scatter
        } else {
            GraphType::Line
        },
        color: cfg.palette(k),
    }
}

/// The state of the oscilloscope between frames.
pub struct Oscilloscope {
    /// Plot channel pairs against each other instead of channels over time.
    pub vectorscope: bool,
    /// The frame that was computed last; handed out again while paused.
    pub last: Vec<DataSet>,
}

impl Oscilloscope {
    /// The frame that was computed last.
    pub open spec fn frame(self) -> Seq<Trace> {
        traces(self.last@)
    }

    /// An oscilloscope in the time domain that has drawn nothing yet.
    pub fn new() -> (scope: Self)
        ensures
            !scope.vectorscope,
            scope.frame() == Seq::<Trace>::empty(),
    {
        let scope = Oscilloscope { vectorscope: false, last: Vec::new() };
        scope
    }

    /// Computes the frame for `data`, or hands out the last frame again
    /// while the configuration pauses. Nothing is clamped: a scale above one
    /// may carry a trace past the bounds of the axes.
    pub fn process(&mut self, cfg: &GraphConfig, data: &Matrix) -> (out: Vec<DataSet>)
        ensures
            traces(out@) == next_frame(
                old(self).frame(),
                *cfg,
                data.deep_view(),
                old(self).vectorscope,
            ),
            final(self).frame() == traces(out@),
            final(self).vectorscope == old(self).vectorscope,
    {
        if cfg.pause {
            return duplicate_all(&self.last);
        }
        let window: u32 = frame_window(cfg, data);
        let ghost matrix = data.deep_view();
        let mut out: Vec<DataSet> = Vec::new();
        if self.vectorscope {
            let pairs: usize = data.len() / 2;
            let mut k: usize = 0;
            while k < pairs
                invariant
                    k <= pairs == data@.len() / 2,
                    matrix == data.deep_view(),
                    window == window_len(cfg.samples as int, matrix),
                    out@.len() == k,
                    forall|j: int| 0 <= j < k ==> (#[trigger] out@[j])@ == pair_trace(*cfg, matrix, j),
                decreases pairs - k,
            {
                out.push(pair_set(cfg, data, window, k));
                k += 1;
            }
        } else {
            let mut c: usize = 0;
            while c < data.len()
                invariant
                    c <= data@.len(),
                    matrix == data.deep_view(),
                    window == window_len(cfg.samples as int, matrix),
                    out@.len() == c,
                    forall|j: int|
                        0 <= j < c ==> (#[trigger] out@[j])@ == channel_trace(*cfg, matrix, j),
                decreases data@.len() - c,
            {
                out.push(time_set(cfg, data, window, c));
                c += 1;
            }
        }
        if cfg.references {
            let reference = self.references(cfg);
            out.push(reference);
            assert(traces(out@) =~= signal_traces(*cfg, matrix, self.vectorscope).push(
                reference_trace(*cfg, self.vectorscope),
            ));
        }
        self.last = duplicate_all(&out);
        out
    }

    /// Applies an input event to the interaction state: the scale, the
    /// window and the switches of the configuration, and the mode of the
    /// oscilloscope. An event that asks for nothing changes nothing.
    pub fn handle(&mut self, cfg: &mut GraphConfig, event: &Event)
        requires
            2 * old(cfg).width <= u32::MAX,
        ensures
            final(cfg).scale == scale_after(old(cfg).scale as int, *event),
            final(cfg).samples == samples_after(
                old(cfg).samples as int,
                old(cfg).width as int,
                *event,
            ),
            final(cfg).scatter == (old(cfg).scatter != (intent_of(*event) == Some(
                Intent::ToggleScatter,
            ))),
            final(cfg).pause == (old(cfg).pause != (intent_of(*event) == Some(
                Intent::TogglePause,
            ))),
            final(cfg).references == (old(cfg).references != (intent_of(*event) == Some(
                Intent::ToggleReference,
            ))),
            final(self).vectorscope == (old(self).vectorscope != (intent_of(*event) == Some(
                Intent::ToggleMode,
            ))),
            final(cfg).sampling_rate == old(cfg).sampling_rate,
            final(cfg).width == old(cfg).width,
            final(cfg).show_ui == old(cfg).show_ui,
            final(cfg).palette@ == old(cfg).palette@,
            final(cfg).labels_color == old(cfg).labels_color,
            final(cfg).axis_color == old(cfg).axis_color,
            final(self).frame() == old(self).frame(),
    {
        let magnitude: u32 = match event {
            Event::Key(key) => key.modifiers.magnitude(),
            _ => 1_000,
        };
        match recognize(event) {
            Some(Intent::ScaleUp) => {
                update_value_f(&mut cfg.scale, SCALE_STEP, magnitude, 0, SCALE_MAX);
            },
            Some(Intent::ScaleDown) => {
                update_value_f(&mut cfg.scale, -SCALE_STEP, magnitude, 0, SCALE_MAX);
            },
            Some(Intent::Widen) => {
                let limit: u32 = 2 * cfg.width;
                update_value_i(&mut cfg.samples, true, WINDOW_STEP, magnitude, 0, limit);
            },
            Some(Intent::Narrow) => {
                let limit: u32 = 2 * cfg.width;
                update_value_i(&mut cfg.samples, false, WINDOW_STEP, magnitude, 0, limit);
            },
            Some(Intent::ToggleScatter) => {
                cfg.scatter = !cfg.scatter;
            },
            Some(Intent::TogglePause) => {
                cfg.pause = !cfg.pause;
            },
            Some(Intent::ToggleReference) => {
                cfg.references = !cfg.references;
            },
            Some(Intent::ToggleMode) => {
                self.vectorscope = !self.vectorscope;
            },
            None => {},
        }
    }

    /// The bounds and labels of one axis of the current mode. They follow
    /// from the configuration alone.
    pub fn axis(&self, cfg: &GraphConfig, dimension: Dimension) -> (axis: AxisDescriptor)
        ensures
            axis.lower == axis_bounds(*cfg, self.vectorscope, dimension).0,
            axis.upper == axis_bounds(*cfg, self.vectorscope, dimension).1,
            label_texts(axis.labels@) == axis_labels(*cfg, self.vectorscope, dimension),
            axis.color == cfg.axis_color,
            axis.labels_color == cfg.labels_color,
    {
        proof {
            reveal_strlit("0");
            reveal_strlit("-");
            reveal_strlit("ms");
        }
        let time: bool = !self.vectorscope && match dimension {
            Dimension::X => true,
            Dimension::Y => false,
        };
        let mut labels: Vec<String> = Vec::new();
        let bounds: (i64, i64) = if time {
            labels.push(String::from_str("0"));
            if cfg.sampling_rate != 0 {
                let micros: u64 = (cfg.samples as u64) * 1_000_000 / (cfg.sampling_rate as u64);
                let mut span = String::new();
                push_thousandths(&mut span, micros);
                span.append("ms");
                labels.push(span);
            }
            (0, (cfg.width as i64) * 1_000_000_000)
        } else {
            let mut low = String::from_str("-");
            push_thousandths(&mut low, cfg.scale as u64);
            let mut high = String::new();
            push_thousandths(&mut high, cfg.scale as u64);
            labels.push(low);
            labels.push(String::from_str("0"));
            labels.push(high);
            let reach: i64 = (cfg.scale as i64) * 1_000_000;
            (-reach, reach)
        };
        assert(label_texts(labels@) =~= axis_labels(*cfg, self.vectorscope, dimension)) by {
            let want = axis_labels(*cfg, self.vectorscope, dimension);
            assert forall|i: int| 0 <= i < want.len() implies #[trigger] label_texts(labels@)[i]
                =~= want[i] by {}
        }
        AxisDescriptor {
            lower: bounds.0,
            upper: bounds.1,
            labels,
            color: cfg.axis_color,
            labels_color: cfg.labels_color,
        }
    }

    /// The reference trace of the current mode.
    pub fn references(&self, cfg: &GraphConfig) -> (reference: DataSet)
        ensures
            reference@ == reference_trace(*cfg, self.vectorscope),
    {
        let mut points: Vec<(i64, i64)> = Vec::new();
        if self.vectorscope {
            let reach: i64 = (cfg.scale as i64) * 1_000_000;
            points.push((-reach, 0));
            points.push((reach, 0));
            points.push((0, 0));
            points.push((0, -reach));
            points.push((0, reach));
            assert(points_view(points@) =~= crosshair(cfg.scale as int));
        } else {
            points.push((0, 0));
            points.push(((cfg.width as i64) * 1_000_000_000, 0));
            assert(points_view(points@) =~= zero_line(cfg.width as int));
        }
        DataSet { points, graph_type: GraphType::Line, color: cfg.axis_color }
    }
}

/// While the configuration pauses, `process` hands out the frame it handed
/// out before, whatever matrix it is given: two paused calls in a row give
/// the same frame twice, and that is the frame from before them.
pub proof fn lemma_pause_holds_frame(
    before: Seq<Trace>,
    first: GraphConfig,
    first_matrix: Seq<Seq<i32>>,
    second: GraphConfig,
    second_matrix: Seq<Seq<i32>>,
    vectorscope: bool,
)
    requires
        second.pause,
    ensures
        next_frame(
            next_frame(before, first, first_matrix, vectorscope),
            second,
            second_matrix,
            vectorscope,
        ) == next_frame(before, first, first_matrix, vectorscope),
        first.pause ==> next_frame(before, first, first_matrix, vectorscope) == before,
{
}

/// Whether `doubled` is `cfg` with twice the scale and nothing else changed.
pub open spec fn doubles_scale(cfg: GraphConfig, doubled: GraphConfig) -> bool {
    &&& doubled.scale == 2 * cfg.scale
    &&& doubled.pause == cfg.pause
    &&& doubled.samples == cfg.samples
    &&& doubled.sampling_rate == cfg.sampling_rate
    &&& doubled.width == cfg.width
    &&& doubled.scatter == cfg.scatter
    &&& doubled.references == cfg.references
    &&& doubled.show_ui == cfg.show_ui
    &&& doubled.palette@ == cfg.palette@
    &&& doubled.labels_color == cfg.labels_color
    &&& doubled.axis_color == cfg.axis_color
}

/// Twice the scale gives the same traces with the same number of points,
/// and doubles every amplitude: each `y` in the time domain, where `x` stays,
/// and each `x` and `y` of a vectorscope.
pub proof fn lemma_doubled_scale_doubles_amplitudes(
    cfg: GraphConfig,
    doubled: GraphConfig,
    matrix: Seq<Seq<i32>>,
    vectorscope: bool,
    t: int,
    i: int,
)
    requires
        doubles_scale(cfg, doubled),
        0 <= t < rendered(cfg, matrix, vectorscope).len(),
        0 <= i < rendered(cfg, matrix, vectorscope)[t].points.len(),
    ensures
        rendered(doubled, matrix, vectorscope).len() == rendered(cfg, matrix, vectorscope).len(),
        rendered(doubled, matrix, vectorscope)[t].points.len() == rendered(
            cfg,
            matrix,
            vectorscope,
        )[t].points.len(),
        rendered(doubled, matrix, vectorscope)[t].points[i].1 == 2 * rendered(
            cfg,
            matrix,
            vectorscope,
        )[t].points[i].1,
        rendered(doubled, matrix, vectorscope)[t].points[i].0 == if vectorscope {
            2 * rendered(cfg, matrix, vectorscope)[t].points[i].0
        } else {
            rendered(cfg, matrix, vectorscope)[t].points[i].0
        },
{
    let window = window_len(cfg.samples as int, matrix);
    let signals = signal_traces(cfg, matrix, vectorscope).len();
    if t < signals {
        if vectorscope {
            let a = window_sample(matrix[2 * t], window, i);
            let b = window_sample(matrix[2 * t + 1], window, i);
            assert(a * (2 * cfg.scale) == 2 * (a * cfg.scale)) by (nonlinear_arith);
            assert(b * (2 * cfg.scale) == 2 * (b * cfg.scale)) by (nonlinear_arith);
        } else {
            let a = window_sample(matrix[t], window, i);
            assert(a * (2 * cfg.scale) == 2 * (a * cfg.scale)) by (nonlinear_arith);
        }
    }
}

/// A channel shorter than the window is shown whole, from the first point
/// on, and zeros fill the rest of the window: the trace of channel `c` has
/// `window` points, its first `len` amplitudes are the channel's samples
/// times the scale, and the others are zero.
pub proof fn lemma_short_channel_is_zero_padded(
    cfg: GraphConfig,
    matrix: Seq<Seq<i32>>,
    c: int,
    i: int,
)
    requires
        0 <= c < matrix.len(),
        matrix[c].len() <= window_len(cfg.samples as int, matrix),
        0 <= i < window_len(cfg.samples as int, matrix),
    ensures
        signal_traces(cfg, matrix, false)[c].points.len() == window_len(
            cfg.samples as int,
            matrix,
        ),
        i < matrix[c].len() ==> signal_traces(cfg, matrix, false)[c].points[i].1 == matrix[c][i]
            * cfg.scale,
        i >= matrix[c].len() ==> signal_traces(cfg, matrix, false)[c].points[i].1 == 0,
{
}

/// The same in a vectorscope: where a channel of the pair `k` is shorter
/// than the window, the points past its end lie on the other channel's axis.
pub proof fn lemma_short_pair_is_zero_padded(
    cfg: GraphConfig,
    matrix: Seq<Seq<i32>>,
    k: int,
    i: int,
)
    requires
        0 <= k < matrix.len() / 2,
        0 <= i < window_len(cfg.samples as int, matrix),
    ensures
        signal_traces(cfg, matrix, true)[k].points.len() == window_len(cfg.samples as int, matrix),
        matrix[2 * k].len() <= i ==> signal_traces(cfg, matrix, true)[k].points[i].0 == 0,
        matrix[2 * k + 1].len() <= i ==> signal_traces(cfg, matrix, true)[k].points[i].1 == 0,
{
}

/// No event carries a setting out of its range: after a scale key the scale
/// lies in `[0, 10]`, and after a window key the window lies in
/// `[0, 2 * width)`, or is zero where the width is.
pub proof fn lemma_adjustments_stay_in_range(scale: u32, samples: u32, width: u32, event: Event)
    ensures
        intent_of(event) == Some(Intent::ScaleUp) || intent_of(event) == Some(Intent::ScaleDown)
            ==> 0 <= scale_after(scale as int, event) <= SCALE_MAX,
        intent_of(event) == Some(Intent::Widen) || intent_of(event) == Some(Intent::Narrow) ==> 0
            <= samples_after(samples as int, width as int, event) && (samples_after(
            samples as int,
            width as int,
            event,
        ) < 2 * width || width == 0 && samples_after(samples as int, width as int, event) == 0),
        intent_of(event) is None ==> scale_after(scale as int, event) == scale && samples_after(
            samples as int,
            width as int,
            event,
        ) == samples,
{
}

} // verus!
