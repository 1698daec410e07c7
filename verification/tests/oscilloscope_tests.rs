use scope_radio::display::{Color, DataSet, Dimension, GraphConfig, GraphType};
use scope_radio::event::{Event, KeyCode, KeyEvent, KeyModifiers};
use scope_radio::fixed::{COORD_ONE, SAMPLE_ONE, SCALE_ONE};
use scope_radio::oscilloscope::{recognize, Intent, Oscilloscope};

#[test]
fn vectorscope_plots_one_channel_against_the_other() {
    let mut scope = Oscilloscope::new();
    scope.vectorscope = true;
    let cfg = GraphConfig {
        samples: 4,
        scale: 2 * SCALE_ONE,
        width: 4,
        palette: vec![Color::Red, Color::Yellow],
        ..GraphConfig::default()
    };
    let matrix = vec![
        vec![100_000, 200_000, 300_000, 400_000],
        vec![-100_000, -200_000, -300_000, -400_000],
    ];
    let out = scope.process(&cfg, &matrix);
    assert_eq!(out.len(), 1);
    assert_eq!(
        out[0].points,
        vec![
            (200_000_000, -200_000_000),
            (400_000_000, -400_000_000),
            (600_000_000, -600_000_000),
            (800_000_000, -800_000_000),
        ]
    );
    let floats: Vec<(f64, f64)> = out[0]
        .points
        .iter()
        .map(|p| (p.0 as f64 / COORD_ONE as f64, p.1 as f64 / COORD_ONE as f64))
        .collect();
    assert_eq!(floats, vec![(0.2, -0.2), (0.4, -0.4), (0.6, -0.6), (0.8, -0.8)]);
    assert_eq!(out[0].color, Color::Red);
    assert_eq!(out[0].graph_type, GraphType::Line);
}

#[test]
fn vectorscope_drops_an_odd_last_channel() {
    let mut scope = Oscilloscope::new();
    scope.vectorscope = true;
    let cfg = GraphConfig {
        samples: 2,
        scale: SCALE_ONE,
        palette: vec![Color::Red, Color::Yellow],
        scatter: true,
        ..GraphConfig::default()
    };
    let matrix = vec![vec![1, 2], vec![3, 4], vec![5, 6], vec![7, 8], vec![9, 10]];
    let out = scope.process(&cfg, &matrix);
    assert_eq!(out.len(), 2);
    assert_eq!(out[0].points, vec![(1000, 3000), (2000, 4000)]);
    assert_eq!(out[1].points, vec![(5000, 7000), (6000, 8000)]);
    assert_eq!(out[0].color, Color::Red);
    assert_eq!(out[1].color, Color::Yellow);
    assert_eq!(out[1].graph_type, GraphType::Scatter);
    let single = scope.process(&cfg, &vec![vec![1, 2]]);
    assert_eq!(single.len(), 0);
}

#[test]
fn time_domain_spreads_the_window_over_the_width() {
    let mut scope = Oscilloscope::new();
    let cfg = GraphConfig {
        samples: 4,
        scale: 1500,
        width: 8,
        palette: vec![Color::Green, Color::Red],
        ..GraphConfig::default()
    };
    let matrix = vec![vec![10, 20, 30, 40], vec![-1, -2, -3, -4], vec![0, 0, 0, 7]];
    let out = scope.process(&cfg, &matrix);
    assert_eq!(out.len(), 3);
    assert_eq!(
        out[0].points,
        vec![
            (0, 15_000),
            (2_000_000_000, 30_000),
            (4_000_000_000, 45_000),
            (6_000_000_000, 60_000)
        ]
    );
    assert_eq!(
        out[1].points,
        vec![
            (0, -1500),
            (2_000_000_000, -3000),
            (4_000_000_000, -4500),
            (6_000_000_000, -6000)
        ]
    );
    assert_eq!(out[0].color, Color::Green);
    assert_eq!(out[1].color, Color::Red);
    assert_eq!(out[2].color, Color::Green);
    assert_eq!(out[0].graph_type, GraphType::Line);
}

#[test]
fn time_coordinates_have_sub_cell_precision() {
    let mut scope = Oscilloscope::new();
    let cfg = GraphConfig { samples: 3, scale: SCALE_ONE, width: 2, ..GraphConfig::default() };
    let out = scope.process(&cfg, &vec![vec![0, 0, 0]]);
    assert_eq!(
        out[0].points,
        vec![(0, 0), (666_666_666, 0), (1_333_333_333, 0)]
    );
    assert_eq!(out[0].color, Color::White);
}

#[test]
fn the_window_is_the_trailing_part_of_each_channel() {
    let mut scope = Oscilloscope::new();
    let cfg = GraphConfig { samples: 4, scale: SCALE_ONE, width: 4, ..GraphConfig::default() };
    let matrix = vec![vec![1, 2, 3, 4, 5, 6], vec![11, 12, 13, 14, 15, 16, 17]];
    let out = scope.process(&cfg, &matrix);
    let ys: Vec<i64> = out[0].points.iter().map(|p| p.1).collect();
    assert_eq!(ys, vec![3000, 4000, 5000, 6000]);
    let ys: Vec<i64> = out[1].points.iter().map(|p| p.1).collect();
    assert_eq!(ys, vec![14000, 15000, 16000, 17000]);
}

#[test]
fn the_window_is_no_longer_than_the_first_channel() {
    let mut scope = Oscilloscope::new();
    let cfg = GraphConfig { samples: 100, scale: SCALE_ONE, width: 4, ..GraphConfig::default() };
    let out = scope.process(&cfg, &vec![vec![1, 2, 3], vec![4, 5, 6, 7, 8]]);
    assert_eq!(out[0].points.len(), 3);
    assert_eq!(out[1].points.len(), 3);
    let ys: Vec<i64> = out[1].points.iter().map(|p| p.1).collect();
    assert_eq!(ys, vec![6000, 7000, 8000]);
    assert_eq!(scope.process(&cfg, &vec![]).len(), 0);
    let none = GraphConfig { samples: 0, ..cfg };
    let out = scope.process(&none, &vec![vec![1, 2, 3]]);
    assert_eq!(out.len(), 1);
    assert_eq!(out[0].points.len(), 0);
}

#[test]
fn a_short_channel_is_padded_with_trailing_zeros() {
    let mut scope = Oscilloscope::new();
    let cfg = GraphConfig { samples: 4, scale: 2000, width: 4, ..GraphConfig::default() };
    let matrix = vec![vec![1, 2, 3, 4], vec![5, 6], vec![]];
    let out = scope.process(&cfg, &matrix);
    assert_eq!(out[1].points.len(), 4);
    let ys: Vec<i64> = out[1].points.iter().map(|p| p.1).collect();
    assert_eq!(ys, vec![10_000, 12_000, 0, 0]);
    let ys: Vec<i64> = out[2].points.iter().map(|p| p.1).collect();
    assert_eq!(ys, vec![0, 0, 0, 0]);
    scope.vectorscope = true;
    let out = scope.process(&cfg, &matrix);
    assert_eq!(out.len(), 1);
    assert_eq!(
        out[0].points,
        vec![(2000, 10_000), (4000, 12_000), (6000, 0), (8000, 0)]
    );
}

#[test]
fn doubling_the_scale_doubles_every_amplitude() {
    let matrix = vec![vec![123, -456, 789, 1000], vec![-1, 2, -3, 4]];
    for vectorscope in [false, true] {
        let mut scope = Oscilloscope::new();
        scope.vectorscope = vectorscope;
        let cfg = GraphConfig {
            samples: 4,
            scale: 1234,
            width: 7,
            references: true,
            ..GraphConfig::default()
        };
        let doubled = GraphConfig { scale: 2468, ..cfg.clone() };
        let once = scope.process(&cfg, &matrix);
        let twice = scope.process(&doubled, &matrix);
        assert_eq!(once.len(), twice.len());
        for (a, b) in once.iter().zip(twice.iter()) {
            assert_eq!(a.points.len(), b.points.len());
            for (p, q) in a.points.iter().zip(b.points.iter()) {
                assert_eq!(q.1, 2 * p.1);
                if vectorscope {
                    assert_eq!(q.0, 2 * p.0);
                } else {
                    assert_eq!(q.0, p.0);
                }
            }
        }
    }
}

#[test]
fn amplitudes_are_not_clamped() {
    let mut scope = Oscilloscope::new();
    let cfg = GraphConfig { samples: 2, scale: u32::MAX, width: 1, ..GraphConfig::default() };
    let out = scope.process(&cfg, &vec![vec![i32::MIN, i32::MAX]]);
    assert_eq!(out[0].points[0].1, i32::MIN as i64 * u32::MAX as i64);
    assert_eq!(out[0].points[1].1, i32::MAX as i64 * u32::MAX as i64);
}

#[test]
fn pause_holds_the_last_frame() {
    let mut scope = Oscilloscope::new();
    let running = GraphConfig { samples: 2, scale: SCALE_ONE, width: 2, ..GraphConfig::default() };
    let paused = GraphConfig { pause: true, ..running.clone() };
    let first = scope.process(&running, &vec![vec![1, 2], vec![3, 4]]);
    let held = scope.process(&paused, &vec![vec![9, 9], vec![9, 9]]);
    let held_again = scope.process(&paused, &vec![vec![-5, -5]]);
    assert_eq!(held, first);
    assert_eq!(held_again, held);
    assert_eq!(scope.last, first);
    let resumed = scope.process(&running, &vec![vec![7, 8]]);
    assert_eq!(resumed.len(), 1);
    assert_eq!(resumed[0].points, vec![(0, 7000), (1_000_000_000, 8000)]);
}

#[test]
fn pause_before_any_frame_gives_an_empty_frame() {
    let mut scope = Oscilloscope::new();
    let paused = GraphConfig { pause: true, samples: 2, ..GraphConfig::default() };
    assert_eq!(scope.process(&paused, &vec![vec![1, 2]]), Vec::<DataSet>::new());
    assert_eq!(scope.process(&paused, &vec![vec![3, 4]]), Vec::<DataSet>::new());
}

#[test]
fn the_reference_is_appended_when_switched_on() {
    let mut scope = Oscilloscope::new();
    let cfg = GraphConfig {
        samples: 2,
        scale: 3 * SCALE_ONE,
        width: 50,
        references: true,
        scatter: true,
        axis_color: Color::DarkGray,
        ..GraphConfig::default()
    };
    let out = scope.process(&cfg, &vec![vec![1, 2]]);
    assert_eq!(out.len(), 2);
    assert_eq!(out[1].points, vec![(0, 0), (50 * COORD_ONE, 0)]);
    assert_eq!(out[1].graph_type, GraphType::Line);
    assert_eq!(out[1].color, Color::DarkGray);
    assert_eq!(out[1], scope.references(&cfg));
    scope.vectorscope = true;
    let out = scope.process(&cfg, &vec![vec![1, 2], vec![3, 4]]);
    assert_eq!(out.len(), 2);
    let reach = 3 * COORD_ONE;
    assert_eq!(
        out[1].points,
        vec![(-reach, 0), (reach, 0), (0, 0), (0, -reach), (0, reach)]
    );
    let off = GraphConfig { references: false, ..cfg };
    assert_eq!(scope.process(&off, &vec![vec![1, 2], vec![3, 4]]).len(), 1);
}

#[test]
fn axes_follow_from_the_configuration() {
    let mut scope = Oscilloscope::new();
    let cfg = GraphConfig {
        samples: 200,
        sampling_rate: 44100,
        scale: 1500,
        width: 200,
        labels_color: Color::Green,
        axis_color: Color::DarkGray,
        ..GraphConfig::default()
    };
    let x = scope.axis(&cfg, Dimension::X);
    assert_eq!((x.lower, x.upper), (0, 200 * COORD_ONE));
    assert_eq!(x.labels, vec![String::from("0"), String::from("4.535ms")]);
    assert_eq!(x.color, Color::DarkGray);
    assert_eq!(x.labels_color, Color::Green);
    let y = scope.axis(&cfg, Dimension::Y);
    assert_eq!((y.lower, y.upper), (-1_500_000_000, 1_500_000_000));
    assert_eq!(y.upper, cfg.scale as i64 * SAMPLE_ONE as i64);
    assert_eq!(
        y.labels,
        vec![String::from("-1.500"), String::from("0"), String::from("1.500")]
    );
    scope.vectorscope = true;
    let x = scope.axis(&cfg, Dimension::X);
    assert_eq!((x.lower, x.upper), (-1_500_000_000, 1_500_000_000));
    assert_eq!(x.labels, y.labels);
    assert_eq!(scope.axis(&cfg, Dimension::Y), y);
}

#[test]
fn the_time_axis_without_a_sampling_rate_has_one_label() {
    let scope = Oscilloscope::new();
    let cfg = GraphConfig { samples: 200, sampling_rate: 0, width: 3, ..GraphConfig::default() };
    let x = scope.axis(&cfg, Dimension::X);
    assert_eq!(x.labels, vec![String::from("0")]);
    let second = GraphConfig { samples: 48000, sampling_rate: 48000, ..cfg };
    assert_eq!(
        scope.axis(&second, Dimension::X).labels,
        vec![String::from("0"), String::from("1000.000ms")]
    );
    let zero = GraphConfig { scale: 0, ..second };
    assert_eq!(
        scope.axis(&zero, Dimension::Y).labels,
        vec![String::from("-0.000"), String::from("0"), String::from("0.000")]
    );
    let fine = GraphConfig { scale: 7, ..zero };
    assert_eq!(scope.axis(&fine, Dimension::Y).labels[2], "0.007");
}

#[test]
fn keys_are_recognized_as_intents() {
    let none = KeyModifiers::none();
    let key = |code| Event::Key(KeyEvent { code, modifiers: none });
    assert_eq!(recognize(&key(KeyCode::Up)), Some(Intent::ScaleUp));
    assert_eq!(recognize(&key(KeyCode::Down)), Some(Intent::ScaleDown));
    assert_eq!(recognize(&key(KeyCode::Right)), Some(Intent::Widen));
    assert_eq!(recognize(&key(KeyCode::Left)), Some(Intent::Narrow));
    assert_eq!(recognize(&key(KeyCode::Char('s'))), Some(Intent::ToggleScatter));
    assert_eq!(recognize(&key(KeyCode::Char(' '))), Some(Intent::TogglePause));
    assert_eq!(recognize(&key(KeyCode::Char('r'))), Some(Intent::ToggleReference));
    assert_eq!(recognize(&key(KeyCode::Char('v'))), Some(Intent::ToggleMode));
    assert_eq!(recognize(&key(KeyCode::Char('x'))), None);
    assert_eq!(recognize(&key(KeyCode::Enter)), None);
    assert_eq!(recognize(&key(KeyCode::Other)), None);
    assert_eq!(recognize(&Event::Resize(80, 24)), None);
    assert_eq!(recognize(&Event::Other), None);
}

#[test]
fn handle_steps_the_scale_by_the_magnitude() {
    let mut scope = Oscilloscope::new();
    let mut cfg = GraphConfig { scale: SCALE_ONE, samples: 200, width: 200, ..GraphConfig::default() };
    let plain = KeyModifiers::none();
    let shift = KeyModifiers { shift: true, ..plain };
    let control = KeyModifiers { control: true, ..plain };
    let alt = KeyModifiers { alt: true, ..plain };
    let both = KeyModifiers { shift: true, control: true, alt: false };
    scope.handle(&mut cfg, &Event::Key(KeyEvent { code: KeyCode::Up, modifiers: plain }));
    assert_eq!(cfg.scale, 1010);
    scope.handle(&mut cfg, &Event::Key(KeyEvent { code: KeyCode::Up, modifiers: shift }));
    assert_eq!(cfg.scale, 1110);
    scope.handle(&mut cfg, &Event::Key(KeyEvent { code: KeyCode::Up, modifiers: control }));
    assert_eq!(cfg.scale, 1160);
    scope.handle(&mut cfg, &Event::Key(KeyEvent { code: KeyCode::Up, modifiers: alt }));
    assert_eq!(cfg.scale, 1162);
    scope.handle(&mut cfg, &Event::Key(KeyEvent { code: KeyCode::Down, modifiers: both }));
    assert_eq!(cfg.scale, 1152);
    scope.handle(&mut cfg, &Event::Key(KeyEvent { code: KeyCode::Down, modifiers: alt }));
    assert_eq!(cfg.scale, 1150);
    assert_eq!(cfg.samples, 200);
}

#[test]
fn handle_holds_the_scale_between_zero_and_ten() {
    let mut scope = Oscilloscope::new();
    let shift = KeyModifiers { shift: true, control: false, alt: false };
    let up = Event::Key(KeyEvent { code: KeyCode::Up, modifiers: shift });
    let down = Event::Key(KeyEvent { code: KeyCode::Down, modifiers: shift });
    let mut cfg = GraphConfig { scale: 9950, width: 10, ..GraphConfig::default() };
    scope.handle(&mut cfg, &up);
    assert_eq!(cfg.scale, 10_000);
    scope.handle(&mut cfg, &up);
    assert_eq!(cfg.scale, 10_000);
    cfg.scale = 50;
    scope.handle(&mut cfg, &down);
    assert_eq!(cfg.scale, 0);
    scope.handle(&mut cfg, &down);
    assert_eq!(cfg.scale, 0);
    cfg.scale = 50_000;
    scope.handle(&mut cfg, &down);
    assert_eq!(cfg.scale, 10_000);
}

#[test]
fn handle_holds_the_window_below_twice_the_width() {
    let mut scope = Oscilloscope::new();
    let plain = KeyModifiers::none();
    let shift = KeyModifiers { shift: true, ..plain };
    let alt = KeyModifiers { alt: true, ..plain };
    let mut cfg = GraphConfig { scale: SCALE_ONE, samples: 200, width: 200, ..GraphConfig::default() };
    scope.handle(&mut cfg, &Event::Key(KeyEvent { code: KeyCode::Right, modifiers: plain }));
    assert_eq!(cfg.samples, 225);
    scope.handle(&mut cfg, &Event::Key(KeyEvent { code: KeyCode::Right, modifiers: alt }));
    assert_eq!(cfg.samples, 230);
    scope.handle(&mut cfg, &Event::Key(KeyEvent { code: KeyCode::Right, modifiers: shift }));
    assert_eq!(cfg.samples, 399);
    scope.handle(&mut cfg, &Event::Key(KeyEvent { code: KeyCode::Left, modifiers: plain }));
    assert_eq!(cfg.samples, 374);
    scope.handle(&mut cfg, &Event::Key(KeyEvent { code: KeyCode::Left, modifiers: shift }));
    assert_eq!(cfg.samples, 124);
    scope.handle(&mut cfg, &Event::Key(KeyEvent { code: KeyCode::Left, modifiers: shift }));
    assert_eq!(cfg.samples, 0);
    cfg.width = 0;
    scope.handle(&mut cfg, &Event::Key(KeyEvent { code: KeyCode::Right, modifiers: plain }));
    assert_eq!(cfg.samples, 0);
    assert_eq!(cfg.scale, SCALE_ONE);
}

#[test]
fn handle_flips_the_switches() {
    let mut scope = Oscilloscope::new();
    let mut cfg = GraphConfig { scale: SCALE_ONE, samples: 200, width: 200, ..GraphConfig::default() };
    let key = |c| Event::Key(KeyEvent { code: KeyCode::Char(c), modifiers: KeyModifiers::none() });
    scope.handle(&mut cfg, &key('s'));
    assert!(cfg.scatter && !cfg.pause && !cfg.references && !scope.vectorscope);
    scope.handle(&mut cfg, &key(' '));
    assert!(cfg.scatter && cfg.pause && !cfg.references && !scope.vectorscope);
    scope.handle(&mut cfg, &key('r'));
    assert!(cfg.scatter && cfg.pause && cfg.references && !scope.vectorscope);
    scope.handle(&mut cfg, &key('v'));
    assert!(cfg.scatter && cfg.pause && cfg.references && scope.vectorscope);
    scope.handle(&mut cfg, &key('s'));
    scope.handle(&mut cfg, &key(' '));
    scope.handle(&mut cfg, &key('r'));
    scope.handle(&mut cfg, &key('v'));
    assert!(!cfg.scatter && !cfg.pause && !cfg.references && !scope.vectorscope);
    assert_eq!((cfg.scale, cfg.samples, cfg.width), (SCALE_ONE, 200, 200));
}

#[test]
fn handle_ignores_what_it_does_not_know() {
    let mut scope = Oscilloscope::new();
    let mut cfg = GraphConfig {
        scale: 1234,
        samples: 77,
        width: 90,
        palette: vec![Color::Blue],
        ..GraphConfig::default()
    };
    let events = [
        Event::Resize(10, 10),
        Event::Other,
        Event::Key(KeyEvent { code: KeyCode::Char('z'), modifiers: KeyModifiers::none() }),
        Event::Key(KeyEvent { code: KeyCode::Enter, modifiers: KeyModifiers::none() }),
        Event::Key(KeyEvent { code: KeyCode::Tab, modifiers: KeyModifiers::none() }),
    ];
    for event in events {
        scope.handle(&mut cfg, &event);
    }
    assert_eq!((cfg.scale, cfg.samples, cfg.width), (1234, 77, 90));
    assert!(!cfg.scatter && !cfg.pause && !cfg.references && !scope.vectorscope);
    assert_eq!(cfg.palette, vec![Color::Blue]);
}
