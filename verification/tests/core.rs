use degenerate::args::Method;
use degenerate::image_map::{half_extent, implied_iterations, threshold_pixels, PixelPoint};
use degenerate::parse_method;
use degenerate::plan::{feed_schedule, resolve_iterations, sample_index, FeedStep};
use degenerate::select::{resolve_slot, select_equation};
use degenerate::signal::{frame_plan, min_max, normalize_divisor, ramp, ramp_plan};

#[test]
fn parse_method_known_names() {
    assert_eq!(parse_method("arc").unwrap(), Method::Arc);
    assert_eq!(parse_method("curve").unwrap(), Method::Curve);
    assert_eq!(parse_method("dot").unwrap(), Method::Dot);
    assert_eq!(parse_method("line").unwrap(), Method::Line);
}

#[test]
fn parse_method_rejects_unknown_name() {
    let e = parse_method("blob").unwrap_err();
    assert_eq!(e, "Could not parse method blob");
    assert!(parse_method("Arc").is_err());
    assert!(parse_method("").is_err());
}

#[test]
fn min_max_empty_block_is_zero() {
    assert_eq!(min_max(&[]), (0, 0));
}

#[test]
fn min_max_finds_extremes() {
    assert_eq!(min_max(&[3, -5, 7]), (-5, 7));
    assert_eq!(min_max(&[9]), (9, 9));
    assert_eq!(min_max(&[i32::MAX, 0, i32::MIN]), (i32::MIN, i32::MAX));
}

#[test]
fn normalize_divisor_constant_block_passes_through() {
    // A constant block has no spread, so the normalizer divides by nothing.
    assert_eq!(normalize_divisor(&[5, 5, 5]), 0);
    assert_eq!(normalize_divisor(&[]), 0);
}

#[test]
fn normalize_divisor_is_the_spread() {
    assert_eq!(normalize_divisor(&[0, 10]), 10);
    assert_eq!(normalize_divisor(&[-3, 9]), 12);
    assert_eq!(
        normalize_divisor(&[i32::MIN, i32::MAX]),
        i32::MAX as i64 - i32::MIN as i64
    );
}

#[test]
fn ramp_counts_from_zero_to_size() {
    assert_eq!(ramp(0), vec![0]);
    assert_eq!(ramp(5), vec![0, 1, 2, 3, 4, 5]);
}

#[test]
fn frame_plan_cuts_the_file_into_blocks() {
    // 44.1 kHz stereo at 25 fps: 1764 samples per channel per frame.
    assert_eq!(frame_plan(44100, 2, 25, 0, 352800), (3528, 100));
}

#[test]
fn frame_plan_caps_requested_frames() {
    assert_eq!(frame_plan(44100, 2, 25, 5, 352800), (3528, 5));
    assert_eq!(frame_plan(44100, 2, 25, 1000, 352800), (3528, 100));
}

#[test]
fn ramp_plan_defaults_to_one_frame() {
    assert_eq!(ramp_plan(0), (255, 1));
    assert_eq!(ramp_plan(7), (255, 7));
}

#[test]
fn select_equation_keeps_table_indices() {
    assert_eq!(select_equation(1), 1);
    assert_eq!(select_equation(15), 15);
}

#[test]
fn select_equation_falls_back_to_default() {
    assert_eq!(select_equation(0), 0);
    assert_eq!(select_equation(16), 0);
    assert_eq!(select_equation(100), 0);
}

#[test]
fn resolve_slot_prefers_configured_index() {
    assert_eq!(resolve_slot(3, 99), 3);
    assert_eq!(resolve_slot(16, 2), 0);
}

#[test]
fn resolve_slot_auto_mode_stays_in_range() {
    assert_eq!(resolve_slot(0, 7), 7);
    assert_eq!(resolve_slot(0, 22), 0);
    assert_eq!(resolve_slot(0, 0), 0);
    for derived in 0..40 {
        assert!(resolve_slot(0, derived) <= 15);
    }
}

#[test]
fn sample_index_walks_cyclically() {
    assert_eq!(sample_index(7, 3), 1);
    assert_eq!(sample_index(2, 5), 2);
}

#[test]
fn feed_schedule_has_one_row_per_iteration() {
    let s = feed_schedule(5, 2);
    assert_eq!(s.len(), 5);
    assert_eq!(
        s,
        vec![
            FeedStep { i: 0, index: 0 },
            FeedStep { i: 1, index: 1 },
            FeedStep { i: 2, index: 0 },
            FeedStep { i: 3, index: 1 },
            FeedStep { i: 4, index: 0 },
        ]
    );
}

#[test]
fn feed_schedule_zero_iterations_is_empty() {
    assert_eq!(feed_schedule(0, 3).len(), 0);
}

#[test]
fn feed_schedule_empty_block_reads_slot_zero() {
    let s = feed_schedule(4, 0);
    assert_eq!(s.len(), 4);
    for (j, step) in s.iter().enumerate() {
        assert_eq!(step.i as usize, j);
        assert_eq!(step.index, 0);
    }
}

#[test]
fn resolve_iterations_prefers_explicit_count() {
    assert_eq!(resolve_iterations(10, 5, 2, 2), 10);
    assert_eq!(resolve_iterations(0, 7, 2, 2), 7);
    assert_eq!(resolve_iterations(0, 0, 4, 3), 12);
}

#[test]
fn threshold_all_dark_image_yields_nothing() {
    assert_eq!(threshold_pixels(2, 2, &[0, 0, 0, 0]), vec![]);
    // The threshold itself is dark: only strictly brighter pixels count.
    assert_eq!(threshold_pixels(2, 2, &[128, 128, 128, 128]), vec![]);
}

#[test]
fn threshold_all_bright_image_yields_every_pixel_in_scan_order() {
    let r = threshold_pixels(2, 2, &[255, 255, 255, 255]);
    assert_eq!(
        r,
        vec![
            PixelPoint { x: 0, y: 0 },
            PixelPoint { x: 1, y: 0 },
            PixelPoint { x: 0, y: 1 },
            PixelPoint { x: 1, y: 1 },
        ]
    );
}

#[test]
fn threshold_keeps_only_bright_pixels() {
    let r = threshold_pixels(2, 2, &[0, 200, 0, 255]);
    assert_eq!(
        r,
        vec![PixelPoint { x: 1, y: 0 }, PixelPoint { x: 1, y: 1 }]
    );
    assert_eq!(threshold_pixels(1, 1, &[129]), vec![PixelPoint { x: 0, y: 0 }]);
}

#[test]
fn threshold_maps_row_major_positions() {
    // 3 wide, 2 high; only the fifth pixel of the scan is bright.
    let r = threshold_pixels(3, 2, &[0, 0, 0, 0, 255, 0]);
    assert_eq!(r, vec![PixelPoint { x: 1, y: 1 }]);
}

#[test]
fn half_extent_takes_the_larger_side() {
    assert_eq!(half_extent(640, 480), 320);
    assert_eq!(half_extent(480, 640), 320);
    assert_eq!(half_extent(5, 4), 2);
}

#[test]
fn implied_iterations_counts_every_pixel() {
    assert_eq!(implied_iterations(4, 3), 12);
    assert_eq!(implied_iterations(0, 5), 0);
}
