use ui_act::device::InputError;
use ui_act::geometry::{
    above_state_request, native_coordinate, shrink_size, window_point, Scale, WindowGeometry,
    MODEL_MAX_HEIGHT, MODEL_MAX_WIDTH,
};

#[test]
fn shrink_wide_frame_to_model_width() {
    assert_eq!(shrink_size(1920, 1080, MODEL_MAX_WIDTH, MODEL_MAX_HEIGHT), (1024, 576));
    assert_eq!(shrink_size(2048, 1536, MODEL_MAX_WIDTH, MODEL_MAX_HEIGHT), (1024, 768));
}

#[test]
fn shrink_tall_frame_to_model_height() {
    assert_eq!(shrink_size(1000, 2000, MODEL_MAX_WIDTH, MODEL_MAX_HEIGHT), (384, 768));
    assert_eq!(shrink_size(1001, 999, 1024, 768), (770, 768));
}

#[test]
fn small_frames_are_never_enlarged() {
    assert_eq!(shrink_size(800, 600, MODEL_MAX_WIDTH, MODEL_MAX_HEIGHT), (800, 600));
    assert_eq!(shrink_size(1024, 768, MODEL_MAX_WIDTH, MODEL_MAX_HEIGHT), (1024, 768));
    assert_eq!(shrink_size(0, 0, MODEL_MAX_WIDTH, MODEL_MAX_HEIGHT), (0, 0));
}

#[test]
fn shrink_rounds_to_nearest() {
    // 1366 x 768 at 1024 / 1366: height 575.71... rounds to 576
    assert_eq!(shrink_size(1366, 768, 1024, 768), (1024, 576));
    // 3 x 5 into 2 wide: height 3.33... rounds to 3
    assert_eq!(shrink_size(3, 5, 2, 100), (2, 3));
    // 4 x 3 into 2 wide: height 1.5 rounds up to 2
    assert_eq!(shrink_size(4, 3, 2, 100), (2, 2));
}

#[test]
fn scale_is_in_unit_interval() {
    assert_eq!(Scale::from_widths(960, 1920), Some(Scale { scaled: 960, native: 1920 }));
    assert_eq!(Scale::from_widths(1920, 1920), Some(Scale { scaled: 1920, native: 1920 }));
    assert_eq!(Scale::from_widths(2000, 1920), Some(Scale { scaled: 1920, native: 1920 }));
    assert_eq!(Scale::from_widths(0, 1920), None);
    assert_eq!(Scale::from_widths(960, 0), None);
}

#[test]
fn coordinates_divide_by_scale_and_round() {
    let half = Scale { scaled: 1, native: 2 };
    assert_eq!(native_coordinate(100, &half), 200);
    assert_eq!(native_coordinate(50, &half), 100);
    let s = Scale { scaled: 1024, native: 1366 };
    // 100 * 1366 / 1024 = 133.39... rounds to 133
    assert_eq!(native_coordinate(100, &s), 133);
    // 3 * 1366 / 1024 = 4.0019... rounds to 4
    assert_eq!(native_coordinate(3, &s), 4);
    // 1 * 6 / 4 = 1.5 rounds up to 2
    assert_eq!(native_coordinate(1, &Scale { scaled: 4, native: 6 }), 2);
    assert_eq!(native_coordinate(u32::MAX, &half), u32::MAX);
}

#[test]
fn window_point_offsets_by_origin() {
    let g = WindowGeometry { x: 100, y: 50, width: 640, height: 480 };
    assert_eq!(window_point(g, 10, 20), Ok((110, 70)));
    assert_eq!(window_point(g, 639, 479), Ok((739, 529)));
}

#[test]
fn window_point_outside_window_is_refused() {
    let g = WindowGeometry { x: 100, y: 50, width: 640, height: 480 };
    assert_eq!(
        window_point(g, 640, 0),
        Err(InputError::CoordinateOutOfBounds { x: 640, y: 0, width: 640, height: 480 })
    );
    assert_eq!(
        window_point(g, 0, 480),
        Err(InputError::CoordinateOutOfBounds { x: 0, y: 480, width: 640, height: 480 })
    );
    let off = WindowGeometry { x: -30, y: 0, width: 640, height: 480 };
    assert_eq!(
        window_point(off, 10, 0),
        Err(InputError::CoordinateOutOfBounds { x: 10, y: 0, width: 640, height: 480 })
    );
    assert_eq!(window_point(off, 30, 0), Ok((0, 0)));
}

#[test]
fn above_state_request_words() {
    assert_eq!(above_state_request(true, 77), [1, 77, 0, 1, 0]);
    assert_eq!(above_state_request(false, 77), [0, 77, 0, 1, 0]);
}

#[test]
fn thin_frames_keep_one_pixel() {
    assert_eq!(shrink_size(1, 100000, MODEL_MAX_WIDTH, MODEL_MAX_HEIGHT), (1, 768));
    assert_eq!(shrink_size(100000, 1, MODEL_MAX_WIDTH, MODEL_MAX_HEIGHT), (1024, 1));
    assert_eq!(shrink_size(5, 3, 0, 0), (1, 1));
    assert_eq!(Scale::from_widths(1, 1), Some(Scale { scaled: 1, native: 1 }));
}
