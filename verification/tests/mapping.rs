use ledstrip::batch::PixelBatch;
use ledstrip::mapping::map_batch;

fn blank_frame(n: usize) -> Vec<(u8, u8, u8, u8)> {
    vec![(0, 0, 0, 0); n]
}

#[test]
fn two_pixels_step_one_touches_only_first_two() {
    let b = PixelBatch {
        pixels: vec![(1, 2, 3), (4, 5, 6)],
        offset: 0,
        step: 1,
        loop_enabled: false,
    };
    let mut frame = blank_frame(300);
    let out = map_batch(&b, &mut frame);
    assert_eq!(out.writes, 2);
    assert!(!out.boundary_reached);
    assert_eq!(frame[0], (1, 2, 3, 0));
    assert_eq!(frame[1], (4, 5, 6, 0));
    for j in 2..300 {
        assert_eq!(frame[j], (0, 0, 0, 0));
    }
}

#[test]
fn two_pixels_step_150_lands_on_0_and_150() {
    let b = PixelBatch {
        pixels: vec![(1, 2, 3), (4, 5, 6)],
        offset: 0,
        step: 150,
        loop_enabled: false,
    };
    let mut frame = blank_frame(300);
    let out = map_batch(&b, &mut frame);
    assert_eq!(out.writes, 2);
    assert!(!out.boundary_reached);
    assert_eq!(frame[0], (1, 2, 3, 0));
    assert_eq!(frame[150], (4, 5, 6, 0));
    for j in 0..300 {
        if j != 0 && j != 150 {
            assert_eq!(frame[j], (0, 0, 0, 0));
        }
    }
}

#[test]
fn looping_single_pixel_fills_short_strip() {
    let b = PixelBatch {
        pixels: vec![(9, 9, 9)],
        offset: 0,
        step: 1,
        loop_enabled: true,
    };
    let mut frame = blank_frame(5);
    let out = map_batch(&b, &mut frame);
    assert_eq!(out.writes, 5);
    assert!(!out.boundary_reached);
    for j in 0..5 {
        assert_eq!(frame[j], (9, 9, 9, 0));
    }
}

#[test]
fn looping_cycles_the_run_in_order() {
    let b = PixelBatch {
        pixels: vec![(1, 0, 0), (0, 2, 0), (0, 0, 3)],
        offset: 1,
        step: 2,
        loop_enabled: true,
    };
    let mut frame = blank_frame(8);
    let out = map_batch(&b, &mut frame);
    // cursor: 1, 3, 5, 7 — four writes cycling through the three colors
    assert_eq!(out.writes, 4);
    assert!(!out.boundary_reached);
    assert_eq!(frame[1], (1, 0, 0, 0));
    assert_eq!(frame[3], (0, 2, 0, 0));
    assert_eq!(frame[5], (0, 0, 3, 0));
    assert_eq!(frame[7], (1, 0, 0, 0));
    for j in [0, 2, 4, 6] {
        assert_eq!(frame[j], (0, 0, 0, 0));
    }
}

#[test]
fn empty_run_writes_nothing() {
    let b = PixelBatch {
        pixels: vec![],
        offset: 0,
        step: 1,
        loop_enabled: true,
    };
    let mut frame = blank_frame(10);
    let out = map_batch(&b, &mut frame);
    assert_eq!(out.writes, 0);
    assert!(!out.boundary_reached);
    assert_eq!(frame, blank_frame(10));
}

#[test]
fn strip_end_cuts_pass_short_and_reports_boundary() {
    let b = PixelBatch {
        pixels: vec![(1, 1, 1), (2, 2, 2), (3, 3, 3)],
        offset: 4,
        step: 1,
        loop_enabled: false,
    };
    let mut frame = blank_frame(5);
    let out = map_batch(&b, &mut frame);
    assert_eq!(out.writes, 1);
    assert!(out.boundary_reached);
    assert_eq!(frame[4], (1, 1, 1, 0));
    for j in 0..4 {
        assert_eq!(frame[j], (0, 0, 0, 0));
    }
}

#[test]
fn offset_past_strip_end_writes_nothing() {
    let b = PixelBatch {
        pixels: vec![(1, 1, 1)],
        offset: 10,
        step: 1,
        loop_enabled: false,
    };
    let mut frame = blank_frame(10);
    let out = map_batch(&b, &mut frame);
    assert_eq!(out.writes, 0);
    assert!(out.boundary_reached);
    assert_eq!(frame, blank_frame(10));
}

#[test]
fn offset_past_strip_end_in_loop_mode_is_silent() {
    let b = PixelBatch {
        pixels: vec![(1, 1, 1)],
        offset: 10,
        step: 1,
        loop_enabled: true,
    };
    let mut frame = blank_frame(10);
    let out = map_batch(&b, &mut frame);
    assert_eq!(out.writes, 0);
    assert!(!out.boundary_reached);
    assert_eq!(frame, blank_frame(10));
}

#[test]
fn huge_stride_stops_after_first_write() {
    let b = PixelBatch {
        pixels: vec![(7, 7, 7), (8, 8, 8)],
        offset: 0,
        step: usize::MAX,
        loop_enabled: false,
    };
    let mut frame = blank_frame(300);
    let out = map_batch(&b, &mut frame);
    assert_eq!(out.writes, 1);
    assert!(out.boundary_reached);
    assert_eq!(frame[0], (7, 7, 7, 0));
    for j in 1..300 {
        assert_eq!(frame[j], (0, 0, 0, 0));
    }
}

#[test]
fn exact_fit_pass_reports_no_boundary() {
    let b = PixelBatch {
        pixels: vec![(1, 1, 1), (2, 2, 2)],
        offset: 3,
        step: 1,
        loop_enabled: false,
    };
    let mut frame = blank_frame(5);
    let out = map_batch(&b, &mut frame);
    assert_eq!(out.writes, 2);
    assert!(!out.boundary_reached);
    assert_eq!(frame[3], (1, 1, 1, 0));
    assert_eq!(frame[4], (2, 2, 2, 0));
}
