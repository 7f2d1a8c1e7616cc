use ui_act::device::{
    click_drag_events, click_events, double_click_events, mouse_down_events, mouse_up_events,
    move_events, scroll_events, triple_click_events, InputError, InputEvent, MouseButton,
    ScrollDirection, WheelAxis, CLICK_HOLD_US, MULTI_CLICK_GAP_US, SETTLE_US,
};

#[test]
fn scroll_direction_names() {
    assert_eq!(ScrollDirection::from_str("up"), Ok(ScrollDirection::Up));
    assert_eq!(ScrollDirection::from_str("down"), Ok(ScrollDirection::Down));
    assert_eq!(ScrollDirection::from_str("right"), Ok(ScrollDirection::Right));
    assert_eq!(ScrollDirection::from_str("left"), Ok(ScrollDirection::Left));
    assert_eq!(
        ScrollDirection::from_str("Up"),
        Err(InputError::InvalidScrollDirection("Up".to_string()))
    );
    assert_eq!(
        ScrollDirection::from_str(""),
        Err(InputError::InvalidScrollDirection(String::new()))
    );
}

#[test]
fn scroll_direction_signs() {
    assert_eq!(ScrollDirection::Up.multiplier(), 1);
    assert_eq!(ScrollDirection::Down.multiplier(), -1);
    assert_eq!(ScrollDirection::Right.multiplier(), 1);
    assert_eq!(ScrollDirection::Left.multiplier(), -1);
}

#[test]
fn scroll_axis_and_sign() {
    assert_eq!(scroll_events(ScrollDirection::Down, 3), vec![InputEvent::Wheel(WheelAxis::Vertical, -3)]);
    assert_eq!(scroll_events(ScrollDirection::Up, 5), vec![InputEvent::Wheel(WheelAxis::Vertical, 5)]);
    assert_eq!(
        scroll_events(ScrollDirection::Left, 2),
        vec![InputEvent::Wheel(WheelAxis::Horizontal, -2)]
    );
    assert_eq!(
        scroll_events(ScrollDirection::Right, i32::MAX as u32),
        vec![InputEvent::Wheel(WheelAxis::Horizontal, i32::MAX)]
    );
}

#[test]
fn button_edges_settle() {
    assert_eq!(
        mouse_down_events(MouseButton::Right),
        vec![InputEvent::ButtonDown(MouseButton::Right), InputEvent::Pause(SETTLE_US)]
    );
    assert_eq!(
        mouse_up_events(MouseButton::Middle),
        vec![InputEvent::ButtonUp(MouseButton::Middle), InputEvent::Pause(SETTLE_US)]
    );
}

#[test]
fn click_is_down_hold_up() {
    assert_eq!(
        click_events(MouseButton::Left),
        vec![
            InputEvent::ButtonDown(MouseButton::Left),
            InputEvent::Pause(SETTLE_US),
            InputEvent::Pause(CLICK_HOLD_US),
            InputEvent::ButtonUp(MouseButton::Left),
            InputEvent::Pause(SETTLE_US),
        ]
    );
}

#[test]
fn multi_clicks_repeat_left_click() {
    let click = click_events(MouseButton::Left);
    let gap = vec![InputEvent::Pause(MULTI_CLICK_GAP_US)];
    let double = [click.clone(), gap.clone(), click.clone()].concat();
    assert_eq!(double_click_events(), double);
    let triple = [double, gap, click].concat();
    assert_eq!(triple_click_events(), triple);
}

#[test]
fn move_within_bounds() {
    assert_eq!(move_events(1920, 1080, 0, 0), Ok(vec![InputEvent::MoveTo(0, 0)]));
    assert_eq!(move_events(1920, 1080, 1919, 1079), Ok(vec![InputEvent::MoveTo(1919, 1079)]));
}

#[test]
fn move_out_of_bounds_is_refused() {
    assert_eq!(
        move_events(1920, 1080, 1920, 5),
        Err(InputError::CoordinateOutOfBounds { x: 1920, y: 5, width: 1920, height: 1080 })
    );
    assert_eq!(
        move_events(1920, 1080, 5, 1080),
        Err(InputError::CoordinateOutOfBounds { x: 5, y: 1080, width: 1920, height: 1080 })
    );
}

#[test]
fn drag_sequence() {
    assert_eq!(
        click_drag_events(800, 600, MouseButton::Left, 10, 20),
        Ok(vec![
            InputEvent::ButtonDown(MouseButton::Left),
            InputEvent::Pause(SETTLE_US),
            InputEvent::Pause(CLICK_HOLD_US),
            InputEvent::MoveTo(10, 20),
            InputEvent::Pause(CLICK_HOLD_US),
            InputEvent::ButtonUp(MouseButton::Left),
            InputEvent::Pause(SETTLE_US),
        ])
    );
    assert_eq!(
        click_drag_events(800, 600, MouseButton::Left, 800, 20),
        Err(InputError::CoordinateOutOfBounds { x: 800, y: 20, width: 800, height: 600 })
    );
}
