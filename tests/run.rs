use gravel::color::Hue;
use gravel::controls::{Action, Command, DirectoryError, DirectoryOutcome};
use gravel::director::{SimulationState, MIDPOINT_TICK};
use gravel::field::new_field;
use gravel::recorder::{frame_file_name, FrameRecorder};
use gravel::sampling::{draw_sample, draw_samples};
use gravel::stone::{Sample, Stone};
use gravel::{CHANCE_SCALE, COLS, DRAW_MAX, MAX_CYCLES, MAX_FRAME_INDEX, MIN_CYCLES, ROWS, TOTAL_TICKS, WIDTH, HEIGHT};

#[test]
fn surface_size() {
    assert_eq!(WIDTH, 12 * 30 + 70);
    assert_eq!(HEIGHT, 22 * 30 + 70);
    assert_eq!(TOTAL_TICKS, 1800);
    assert_eq!(MIDPOINT_TICK, 900);
}

#[test]
fn field_has_one_stone_per_cell() {
    let f = new_field();
    assert_eq!(f.len(), (ROWS * COLS) as usize);
    let mut seen = vec![false; f.len()];
    for s in &f {
        assert!(s.grid_x < COLS && s.grid_y < ROWS);
        let k = (s.grid_y * COLS + s.grid_x) as usize;
        assert!(!seen[k]);
        seen[k] = true;
        assert_eq!(*s, Stone::new(s.grid_x, s.grid_y));
    }
    assert!(seen.iter().all(|b| *b));
    assert_eq!((f[13].grid_x, f[13].grid_y), (1, 1));
}

#[test]
fn hue_of_resting_stones() {
    let den = 660 * 220000;
    assert_eq!(Stone::new(0, 0).hue(), Hue { numerator: 0, denominator: den });
    // (11 / 12 + 21 / 22) / 5 = 247 / 660
    assert_eq!(Stone::new(11, 21).hue(), Hue { numerator: 247 * 220000, denominator: den });
    let h = Stone::new(6, 11).hue();
    let v = h.numerator as f64 / h.denominator as f64;
    assert!((v - (0.5 + 0.5) / 5.0).abs() < 1e-12);
}

#[test]
fn hue_counts_offsets_and_rotation() {
    let mut s = Stone::new(0, 0);
    // a quarter cell to the right: |0.25| / 0.5 = 0.5, mean 0.1
    s.offset_x = 110000;
    s.target_x = 110000;
    let h = s.hue();
    assert!((h.numerator as f64 / h.denominator as f64 - 0.1).abs() < 1e-12);
    // an eighth of a turn: |pi / 4| / (pi / 4) = 1, mean 0.2 more
    s.rotation = -220000;
    s.target_rot = -220000;
    let h = s.hue();
    assert!((h.numerator as f64 / h.denominator as f64 - 0.3).abs() < 1e-12);
}

#[test]
fn hue_is_clamped_to_one() {
    let mut s = Stone::new(11, 21);
    s.offset_x = 5 * 440000;
    s.target_x = 5 * 440000;
    let h = s.hue();
    assert_eq!(h.numerator, h.denominator);
}

#[test]
fn recorder_saves_even_ticks() {
    let mut r = FrameRecorder::new(true);
    assert_eq!(r.on_tick(1), None);
    assert_eq!(r.on_tick(2), Some(1));
    assert_eq!(r.on_tick(3), None);
    assert_eq!(r.on_tick(4), Some(2));
    assert_eq!(r.frame_index, 2);
    let mut idle = FrameRecorder::new(false);
    assert_eq!(idle.on_tick(2), None);
    assert_eq!(idle.frame_index, 0);
}

#[test]
fn recorder_frame_count_over_a_run() {
    for t in [0u64, 1, 2, 7, 1800, 1801] {
        let mut r = FrameRecorder::new(true);
        for tick in 1..=t {
            r.on_tick(tick);
        }
        assert_eq!(r.frame_index as u64, std::cmp::min(9999, t / 2));
        assert!(r.recording);
    }
}

#[test]
fn recorder_stops_instead_of_passing_the_cap() {
    let mut r = FrameRecorder::new(true);
    let mut last = None;
    for tick in 1..=19998u64 {
        if let Some(i) = r.on_tick(tick) {
            last = Some(i);
        }
    }
    assert_eq!(last, Some(MAX_FRAME_INDEX));
    assert_eq!(r.frame_index, 9999);
    assert!(r.recording);
    assert_eq!(r.on_tick(19999), None);
    assert!(r.recording);
    assert_eq!(r.on_tick(20000), None);
    assert!(!r.recording);
    assert_eq!(r.frame_index, 9999);
    assert_eq!(r.on_tick(20002), None);
}

#[test]
fn toggle_stops_and_start_resets_the_index() {
    let mut r = FrameRecorder::new(true);
    r.on_tick(2);
    r.on_tick(4);
    assert!(!r.toggle());
    assert!(!r.recording);
    assert_eq!(r.frame_index, 2);
    assert!(r.toggle());
    assert!(!r.recording);
    assert_eq!(r.frame_index, 2);
    r.start();
    assert!(r.recording);
    assert_eq!(r.frame_index, 0);
}

#[test]
fn commands_move_adjustments() {
    let mut st = SimulationState::new();
    assert_eq!(st.apply_command(Command::IncreaseDisplacement), Action::Nothing);
    assert_eq!(st.adjustments.displacement_adjust, 11);
    assert_eq!(st.apply_command(Command::DecreaseRotation), Action::Nothing);
    assert_eq!(st.adjustments.rotation_adjust, 9);
    assert_eq!(st.apply_command(Command::IncreaseRotation), Action::Nothing);
    assert_eq!(st.adjustments.rotation_adjust, 10);
    for _ in 0..20 {
        st.apply_command(Command::DecreaseDisplacement);
    }
    assert_eq!(st.adjustments.displacement_adjust, 0);
    assert_eq!(st.apply_command(Command::Snapshot), Action::SaveSnapshot);
}

#[test]
fn toggle_command_asks_for_the_directory() {
    let mut st = recording_state();
    st.tick(&steady(st.stones.len()));
    st.tick(&steady(st.stones.len()));
    assert_eq!(st.recorder.frame_index, 1);
    assert_eq!(st.apply_command(Command::ToggleRecording), Action::Nothing);
    assert!(!st.recorder.recording);
    assert_eq!(st.apply_command(Command::ToggleRecording), Action::EnsureOutputDirectory);
    assert!(!st.recorder.recording);
    assert_eq!(st.recorder.frame_index, 1);
    assert_eq!(st.directory_ready(DirectoryOutcome::Created), Ok(()));
    assert!(st.recorder.recording);
    assert_eq!(st.recorder.frame_index, 0);
}

#[test]
fn existing_directory_starts_recording() {
    let mut st = SimulationState::new();
    assert_eq!(st.apply_command(Command::ToggleRecording), Action::EnsureOutputDirectory);
    assert_eq!(st.directory_ready(DirectoryOutcome::AlreadyExisted), Ok(()));
    assert!(st.recorder.recording);
    assert_eq!(st.recorder.frame_index, 0);
}

#[test]
fn failed_directory_keeps_recorder_idle() {
    let mut st = recording_state();
    st.tick(&steady(st.stones.len()));
    st.tick(&steady(st.stones.len()));
    st.apply_command(Command::ToggleRecording);
    assert_eq!(st.apply_command(Command::ToggleRecording), Action::EnsureOutputDirectory);
    assert_eq!(st.directory_ready(DirectoryOutcome::Failed), Err(DirectoryError::CreationFailed));
    assert!(!st.recorder.recording);
    assert_eq!(st.recorder.frame_index, 1);
    // No frame is asked for while idle.
    let out = st.tick(&steady(st.stones.len()));
    assert_eq!(st.tick_count, 3);
    assert_eq!(out.capture, None);
    let out = st.tick(&steady(st.stones.len()));
    assert_eq!(out.capture, None);
}

fn recording_state() -> SimulationState {
    let mut st = SimulationState::new();
    assert!(!st.recorder.recording);
    assert_eq!(st.directory_ready(DirectoryOutcome::Created), Ok(()));
    st
}

fn steady(n: usize) -> Vec<Sample> {
    vec![Sample { chance: 0, target_x: DRAW_MAX, target_y: -DRAW_MAX, target_rot: DRAW_MAX, cycles: MIN_CYCLES }; n]
}

#[test]
fn midpoint_zeroes_adjustments() {
    let mut st = SimulationState::new();
    let n = st.stones.len();
    for _ in 1..MIDPOINT_TICK {
        st.tick(&steady(n));
    }
    assert_eq!(st.adjustments.displacement_adjust, 10);
    st.tick(&steady(n));
    assert_eq!(st.tick_count, MIDPOINT_TICK);
    assert_eq!(st.adjustments.displacement_adjust, 0);
    assert_eq!(st.adjustments.rotation_adjust, 0);
    st.apply_command(Command::IncreaseDisplacement);
    st.tick(&steady(n));
    assert_eq!(st.adjustments.displacement_adjust, 0);
}

#[test]
fn run_ends_after_the_grace_tick() {
    let mut st = recording_state();
    let n = st.stones.len();
    let mut captures = 0;
    for t in 1..=TOTAL_TICKS {
        let out = st.tick(&steady(n));
        assert!(!out.finished);
        assert_eq!(out.capture.is_some(), t % 2 == 0);
        if out.capture.is_some() {
            captures += 1;
        }
    }
    let out = st.tick(&steady(n));
    assert!(out.finished);
    assert!(st.is_finished());
    assert_eq!(captures, 900);
    // Every stone settled: the last segments aim at rest and end by the close.
    assert!(st.stones.iter().all(|s| s.target_x == 0 && s.target_y == 0 && s.target_rot == 0));
}

#[test]
fn settles_to_rest_after_the_midpoint() {
    let mut st = SimulationState::new();
    let n = st.stones.len();
    for _ in 0..(MIDPOINT_TICK + 2 * MAX_CYCLES as u64) {
        st.tick(&steady(n));
    }
    assert!(st.stones.iter().all(|s| s.offset_x == 0 && s.offset_y == 0 && s.rotation == 0));
}

#[test]
fn samples_fall_in_their_ranges() {
    let v = draw_samples(500);
    assert_eq!(v.len(), 500);
    for d in &v {
        assert!(d.chance < CHANCE_SCALE);
        assert!((-DRAW_MAX..=DRAW_MAX).contains(&d.target_x));
        assert!((-DRAW_MAX..=DRAW_MAX).contains(&d.target_y));
        assert!((-DRAW_MAX..=DRAW_MAX).contains(&d.target_rot));
        assert!((MIN_CYCLES..MAX_CYCLES).contains(&d.cycles));
    }
    assert!(v.iter().any(|d| d.chance != 0));
    assert!(v.iter().any(|d| d.cycles != MIN_CYCLES));
    let d = draw_sample();
    assert!(d.chance < CHANCE_SCALE);
}

#[test]
fn random_run_completes() {
    let mut st = recording_state();
    let mut frames = 0;
    loop {
        let out = st.tick_random();
        if out.capture.is_some() {
            frames += 1;
        }
        if out.finished {
            break;
        }
    }
    assert_eq!(st.tick_count, TOTAL_TICKS + 1);
    assert_eq!(frames, 900);
    assert_eq!(st.recorder.frame_index, 900);
}

#[test]
fn frame_files_are_zero_padded() {
    assert_eq!(frame_file_name("demo_frames", 1), "demo_frames/shotter0001.png");
    assert_eq!(frame_file_name("out", 42), "out/shotter0042.png");
    assert_eq!(frame_file_name("out", 9999), "out/shotter9999.png");
    assert_eq!(frame_file_name("", 305), "/shotter0305.png");
}
