use trajectory::config::{config_from_raw, Config};
use trajectory::sim::{Row, Run};

/// The floating-point state of the kernel driving a run.
struct Kin {
    t: f64,
    x: f64,
    y: f64,
    vx: f64,
    vy: f64,
}

fn init(cfg: &Config) -> Kin {
    let v0 = f64::from_bits(cfg.v0);
    let theta = f64::from_bits(cfg.angle_deg) * std::f64::consts::PI / 180.0;
    Kin {
        t: 0.0,
        x: 0.0,
        y: f64::from_bits(cfg.y0),
        vx: v0 * theta.cos(),
        vy: v0 * theta.sin(),
    }
}

fn step(s: &mut Kin, cfg: &Config) {
    let g = f64::from_bits(cfg.gravity);
    let m = f64::from_bits(cfg.mass);
    let c = f64::from_bits(cfg.drag);
    let dt = f64::from_bits(cfg.dt);
    let speed = (s.vx * s.vx + s.vy * s.vy).sqrt();
    let ax = -(c / m) * speed * s.vx;
    let ay = -g - (c / m) * speed * s.vy;
    s.vx += ax * dt;
    s.vy += ay * dt;
    s.x += s.vx * dt;
    s.y += s.vy * dt;
    s.t += dt;
}

/// Drive a run to completion; returns the run and the kernel's final state
/// (when the run landed, that state is the discarded below-ground sample).
fn run_sim(cfg: &Config, max_steps: u64) -> (Run, Kin) {
    let mut run = Run::start(cfg.y0, max_steps);
    let mut s = init(cfg);
    while run.wants_step() {
        step(&mut s, cfg);
        run.offer(Row {
            t: s.t.to_bits(),
            x: s.x.to_bits(),
            y: s.y.to_bits(),
        });
    }
    (run, s)
}

fn cfg_of(v0: f64, angle_deg: f64, y0: f64, g: f64, m: f64, c: f64, dt: f64) -> Config {
    Config {
        v0: v0.to_bits(),
        angle_deg: angle_deg.to_bits(),
        y0: y0.to_bits(),
        gravity: g.to_bits(),
        mass: m.to_bits(),
        drag: c.to_bits(),
        dt: dt.to_bits(),
    }
}

fn default_cfg() -> Config {
    config_from_raw(None, None, None, None, None, None, None)
}

#[test]
fn first_row_is_initial_sample() {
    let cfg = cfg_of(50.0, 45.0, 3.5, 9.81, 1.0, 0.05, 0.01);
    let (run, _) = run_sim(&cfg, 1_000_000);
    let first = run.rows[0];
    assert_eq!(first.t, 0.0f64.to_bits());
    assert_eq!(first.x, 0.0f64.to_bits());
    assert_eq!(first.y, 3.5f64.to_bits());
}

#[test]
fn initial_sample_emitted_even_below_ground() {
    let cfg = cfg_of(50.0, 45.0, -5.0, 9.81, 1.0, 0.05, 0.01);
    let (run, _) = run_sim(&cfg, 1_000_000);
    assert_eq!(run.rows.len(), 1);
    assert_eq!(run.rows[0].y, (-5.0f64).to_bits());
    assert!(!run.landed);
}

#[test]
fn no_steps_wanted_from_nan_height() {
    let run = Run::start(f64::NAN.to_bits(), 1_000_000);
    assert!(!run.wants_step());
}

#[test]
fn steps_wanted_from_negative_zero_height() {
    let run = Run::start((-0.0f64).to_bits(), 1_000_000);
    assert!(run.wants_step());
}

#[test]
fn times_track_step_index() {
    let (run, _) = run_sim(&default_cfg(), 1_000_000);
    assert!(run.rows.len() > 2);
    let dt = 0.01f64;
    let mut prev = f64::NEG_INFINITY;
    for (i, row) in run.rows.iter().enumerate() {
        let t = f64::from_bits(row.t);
        assert!(t > prev, "time not strictly increasing at row {i}");
        assert!(
            (t - i as f64 * dt).abs() < 1e-9,
            "time of row {i} is {t}, not near {}",
            i as f64 * dt
        );
        prev = t;
    }
}

#[test]
fn rows_above_ground_and_impact_sample_dropped() {
    let (run, last) = run_sim(&default_cfg(), 1_000_000);
    for row in run.rows.iter().skip(1) {
        assert!(f64::from_bits(row.y) > 0.0);
    }
    assert!(run.landed);
    // the kernel's final sample is the one the run computed and refused
    assert!(last.y <= 0.0);
    let final_emitted = run.rows.last().unwrap();
    assert!(f64::from_bits(final_emitted.t) < last.t);
}

#[test]
fn vacuum_apex_and_flight_time_near_closed_form() {
    let cfg = cfg_of(50.0, 45.0, 0.0, 9.81, 1.0, 0.0, 0.01);
    let (run, _) = run_sim(&cfg, 10_000_000);
    assert!(run.landed);
    let v0y = 50.0f64 * (45.0f64.to_radians()).sin();
    let apex_expected = v0y * v0y / (2.0 * 9.81); // about 63.7 m
    let flight_expected = 2.0 * v0y / 9.81; // about 7.2 s
    let apex = run
        .rows
        .iter()
        .map(|r| f64::from_bits(r.y))
        .fold(f64::NEG_INFINITY, f64::max);
    assert!(
        (apex - apex_expected).abs() < 0.5,
        "apex {apex} vs {apex_expected}"
    );
    let last_t = f64::from_bits(run.rows.last().unwrap().t);
    assert!(
        (last_t - flight_expected).abs() < 0.05,
        "flight {last_t} vs {flight_expected}"
    );
}

#[test]
fn zero_drag_zero_gravity_height_constant() {
    // flat launch from height ten with no forces: the height never changes,
    // and the run would go on forever, so it is bounded by the step ceiling
    let cfg = cfg_of(50.0, 0.0, 10.0, 0.0, 1.0, 0.0, 0.01);
    let (run, _) = run_sim(&cfg, 1000);
    assert!(!run.landed);
    assert_eq!(run.rows.len(), 1001);
    for row in run.rows.iter() {
        assert_eq!(row.y, 10.0f64.to_bits());
    }
}

#[test]
fn step_ceiling_bounds_a_rising_trajectory() {
    let cfg = cfg_of(50.0, 45.0, 0.0, 0.0, 1.0, 0.0, 0.01);
    let (run, _) = run_sim(&cfg, 50);
    assert!(!run.landed);
    assert_eq!(run.rows.len(), 51);
    assert!(!run.wants_step());
}

#[test]
fn drag_strictly_shortens_range() {
    let dragged = cfg_of(50.0, 45.0, 0.0, 9.81, 1.0, 0.05, 0.01);
    let vacuum = cfg_of(50.0, 45.0, 0.0, 9.81, 1.0, 0.0, 0.01);
    let (run_drag, _) = run_sim(&dragged, 10_000_000);
    let (run_vac, _) = run_sim(&vacuum, 10_000_000);
    let range_drag = f64::from_bits(run_drag.rows.last().unwrap().x);
    let range_vac = f64::from_bits(run_vac.rows.last().unwrap().x);
    assert!(
        range_drag < range_vac,
        "range with drag {range_drag} not below vacuum range {range_vac}"
    );
}

#[test]
fn reruns_are_bit_identical() {
    let cfg = default_cfg();
    let (a, _) = run_sim(&cfg, 1_000_000);
    let (b, _) = run_sim(&cfg, 1_000_000);
    assert_eq!(a.landed, b.landed);
    assert_eq!(a.rows.len(), b.rows.len());
    for (ra, rb) in a.rows.iter().zip(b.rows.iter()) {
        assert_eq!(ra.t, rb.t);
        assert_eq!(ra.x, rb.x);
        assert_eq!(ra.y, rb.y);
    }
}
