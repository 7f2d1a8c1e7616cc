use vstd::prelude::*;
use crate::keys::Key;
use crate::text::is_word;

verus! {

/// Settle time after each button edge, in microseconds.
pub const SETTLE_US: u64 = 1;

/// How long a click holds the button, in microseconds.
pub const CLICK_HOLD_US: u64 = 100_000;

/// Gap between the clicks of a double or triple click, in microseconds.
pub const MULTI_CLICK_GAP_US: u64 = 50_000;

/// A pointer button of the virtual pointer.
#[derive(Debug, Clone, Copy, PartialEq, Eq, Structural)]
pub enum MouseButton {
    Left,
    Right,
    Middle,
}

/// A wheel axis of the virtual pointer.
#[derive(Debug, Clone, Copy, PartialEq, Eq, Structural)]
pub enum WheelAxis {
    Horizontal,
    Vertical,
}

/// One primitive operation on the virtual device pair.
///
/// Each event but `Pause` is followed by a synchronization report when sent.
#[derive(Debug, Clone, Copy, PartialEq, Eq, Structural)]
pub enum InputEvent {
    KeyDown(Key),
    KeyUp(Key),
    ButtonDown(MouseButton),
    ButtonUp(MouseButton),
    /// Absolute position: X, then Y.
    MoveTo(u32, u32),
    /// Relative wheel motion on one axis.
    Wheel(WheelAxis, i32),
    /// Sleep, in microseconds.
    Pause(u64),
}

/// Why an input operation was refused.
#[derive(Debug, Clone, PartialEq, Eq)]
pub enum InputError {
    /// A token of a key combination names no known key.
    UnknownKey(String),
    /// A scroll direction other than up, down, left or right.
    InvalidScrollDirection(String),
    /// A device that does not appear in the device listing.
    DeviceNotFound(String),
    /// A seat whose two halves do not resolve after it was created.
    SeatResolutionFailed(String),
    /// A position outside the target surface.
    CoordinateOutOfBounds { x: u32, y: u32, width: u32, height: u32 },
}

/// A scroll direction; it selects the wheel axis and the sign of the motion.
#[derive(Debug, Clone, Copy, PartialEq, Eq, Structural)]
pub enum ScrollDirection {
    Up,
    Down,
    Right,
    Left,
}

/// The direction that a lowercase name denotes.
pub open spec fn direction_named(s: Seq<char>) -> Option<ScrollDirection> {
    if s == seq!['u', 'p'] {
        Some(ScrollDirection::Up)
    } else if s == seq!['d', 'o', 'w', 'n'] {
        Some(ScrollDirection::Down)
    } else if s == seq!['r', 'i', 'g', 'h', 't'] {
        Some(ScrollDirection::Right)
    } else if s == seq!['l', 'e', 'f', 't'] {
        Some(ScrollDirection::Left)
    } else {
        None
    }
}

pub open spec fn sign_of(d: ScrollDirection) -> int {
    match d {
        ScrollDirection::Up | ScrollDirection::Right => 1,
        ScrollDirection::Down | ScrollDirection::Left => -1,
    }
}

pub open spec fn axis_of(d: ScrollDirection) -> WheelAxis {
    match d {
        ScrollDirection::Up | ScrollDirection::Down => WheelAxis::Vertical,
        ScrollDirection::Right | ScrollDirection::Left => WheelAxis::Horizontal,
    }
}

impl ScrollDirection {
    /// Reads `up`, `down`, `right` or `left`.
    pub fn from_str(direction: &str) -> (r: Result<ScrollDirection, InputError>)
        ensures
            match r {
                Ok(d) => direction_named(direction@) == Some(d),
                Err(e) => direction_named(direction@) is None && match e {
                    InputError::InvalidScrollDirection(s) => s@ == direction@,
                    _ => false,
                },
            },
    {
        if is_word(direction, &['u', 'p']) {
            Ok(ScrollDirection::Up)
        } else if is_word(direction, &['d', 'o', 'w', 'n']) {
            Ok(ScrollDirection::Down)
        } else if is_word(direction, &['r', 'i', 'g', 'h', 't']) {
            Ok(ScrollDirection::Right)
        } else if is_word(direction, &['l', 'e', 'f', 't']) {
            Ok(ScrollDirection::Left)
        } else {
            Err(InputError::InvalidScrollDirection(String::from_str(direction)))
        }
    }

    /// The sign of the wheel motion: up and right are positive.
    pub fn multiplier(&self) -> (r: i32)
        ensures
            r as int == sign_of(*self),
    {
        match self {
            ScrollDirection::Up => 1,
            ScrollDirection::Down => -1,
            ScrollDirection::Right => 1,
            ScrollDirection::Left => -1,
        }
    }
}

/// A button press, then the settle delay.
pub open spec fn button_down(b: MouseButton) -> Seq<InputEvent> {
    seq![InputEvent::ButtonDown(b), InputEvent::Pause(SETTLE_US)]
}

/// A button release, then the settle delay.
pub open spec fn button_up(b: MouseButton) -> Seq<InputEvent> {
    seq![InputEvent::ButtonUp(b), InputEvent::Pause(SETTLE_US)]
}

/// Down, hold, up.
pub open spec fn click(b: MouseButton) -> Seq<InputEvent> {
    button_down(b) + seq![InputEvent::Pause(CLICK_HOLD_US)] + button_up(b)
}

pub open spec fn double_click() -> Seq<InputEvent> {
    click(MouseButton::Left) + seq![InputEvent::Pause(MULTI_CLICK_GAP_US)] + click(
        MouseButton::Left,
    )
}

pub open spec fn triple_click() -> Seq<InputEvent> {
    double_click() + seq![InputEvent::Pause(MULTI_CLICK_GAP_US)] + click(MouseButton::Left)
}

/// Down, settle, move, settle, up.
pub open spec fn drag(b: MouseButton, x: u32, y: u32) -> Seq<InputEvent> {
    button_down(b) + seq![
        InputEvent::Pause(CLICK_HOLD_US),
        InputEvent::MoveTo(x, y),
        InputEvent::Pause(CLICK_HOLD_US),
    ] + button_up(b)
}

/// A position lies on a surface of the given size.
pub open spec fn on_surface(width: u32, height: u32, x: u32, y: u32) -> bool {
    x < width && y < height
}

pub fn mouse_down_events(b: MouseButton) -> (r: Vec<InputEvent>)
    ensures
        r@ == button_down(b),
{
    let r = vec![InputEvent::ButtonDown(b), InputEvent::Pause(SETTLE_US)];
    proof {
        assert(r@ =~= button_down(b));
    }
    r
}

pub fn mouse_up_events(b: MouseButton) -> (r: Vec<InputEvent>)
    ensures
        r@ == button_up(b),
{
    let r = vec![InputEvent::ButtonUp(b), InputEvent::Pause(SETTLE_US)];
    proof {
        assert(r@ =~= button_up(b));
    }
    r
}

pub fn click_events(b: MouseButton) -> (r: Vec<InputEvent>)
    ensures
        r@ == click(b),
{
    let mut r = mouse_down_events(b);
    r.push(InputEvent::Pause(CLICK_HOLD_US));
    let mut up = mouse_up_events(b);
    r.append(&mut up);
    proof {
        assert(r@ =~= click(b));
    }
    r
}

pub fn double_click_events() -> (r: Vec<InputEvent>)
    ensures
        r@ == double_click(),
{
    let mut r = click_events(MouseButton::Left);
    r.push(InputEvent::Pause(MULTI_CLICK_GAP_US));
    let mut second = click_events(MouseButton::Left);
    r.append(&mut second);
    proof {
        assert(r@ =~= double_click());
    }
    r
}

pub fn triple_click_events() -> (r: Vec<InputEvent>)
    ensures
        r@ == triple_click(),
{
    let mut r = double_click_events();
    r.push(InputEvent::Pause(MULTI_CLICK_GAP_US));
    let mut third = click_events(MouseButton::Left);
    r.append(&mut third);
    proof {
        assert(r@ =~= triple_click());
    }
    r
}

/// Moves the pointer to `(x, y)` on a `width` by `height` surface.
/// A position off the surface is refused, not clamped.
pub fn move_events(width: u32, height: u32, x: u32, y: u32) -> (r: Result<
    Vec<InputEvent>,
    InputError,
>)
    ensures
        on_surface(width, height, x, y) <==> r is Ok,
        r matches Ok(evs) ==> evs@ == seq![InputEvent::MoveTo(x, y)],
        r matches Err(e) ==> e == (InputError::CoordinateOutOfBounds { x, y, width, height }),
{
    if x < width && y < height {
        let r = vec![InputEvent::MoveTo(x, y)];
        proof {
            assert(r@ =~= seq![InputEvent::MoveTo(x, y)]);
        }
        Ok(r)
    } else {
        Err(InputError::CoordinateOutOfBounds { x, y, width, height })
    }
}

/// Presses `b`, drags to `(x, y)` on a `width` by `height` surface, and
/// releases. A target off the surface is refused before any event.
pub fn click_drag_events(width: u32, height: u32, b: MouseButton, x: u32, y: u32) -> (r: Result<
    Vec<InputEvent>,
    InputError,
>)
    ensures
        on_surface(width, height, x, y) <==> r is Ok,
        r matches Ok(evs) ==> evs@ == drag(b, x, y),
        r matches Err(e) ==> e == (InputError::CoordinateOutOfBounds { x, y, width, height }),
{
    if !(x < width && y < height) {
        return Err(InputError::CoordinateOutOfBounds { x, y, width, height });
    }
    let mut r = mouse_down_events(b);
    r.push(InputEvent::Pause(CLICK_HOLD_US));
    r.push(InputEvent::MoveTo(x, y));
    r.push(InputEvent::Pause(CLICK_HOLD_US));
    let mut up = mouse_up_events(b);
    r.append(&mut up);
    proof {
        assert(r@ =~= drag(b, x, y));
    }
    Ok(r)
}

/// One wheel event: the axis comes from the direction, the magnitude from
/// `amount`, the sign from the direction.
pub fn scroll_events(direction: ScrollDirection, amount: u32) -> (r: Vec<InputEvent>)
    requires
        amount <= i32::MAX,
    ensures
        r@ == seq![InputEvent::Wheel(axis_of(direction), (amount as int * sign_of(direction)) as i32)],
        (amount as int * sign_of(direction)) as i32 as int == amount as int * sign_of(direction),
{
    let axis = match direction {
        ScrollDirection::Up | ScrollDirection::Down => WheelAxis::Vertical,
        ScrollDirection::Right | ScrollDirection::Left => WheelAxis::Horizontal,
    };
    let value = (amount as i32) * direction.multiplier();
    let r = vec![InputEvent::Wheel(axis, value)];
    proof {
        assert(r@ =~= seq![InputEvent::Wheel(axis_of(direction), (amount as int * sign_of(direction)) as i32)]);
    }
    r
}

} // verus!
