use ui_act::device::InputError;
use ui_act::listing::{find_device_id, parse_decimal_i32};
use ui_act::seat::{SeatCommand, SeatPhase, SeatSetup, XInputMaster, SEAT_SETTLE_MS};

const BEFORE: &str = "\
⎡ Virtual core pointer                    \tid=2\t[master pointer  (3)]
⎜   ↳ Virtual core XTEST pointer              \tid=4\t[slave  pointer  (2)]
⎜   ↳ ui-act-mouse                            \tid=12\t[slave  pointer  (2)]
⎣ Virtual core keyboard                   \tid=3\t[master keyboard (2)]
    ↳ Virtual core XTEST keyboard             \tid=5\t[slave  keyboard (3)]
    ↳ ui-act-keyboard                         \tid=13\t[slave  keyboard (3)]
";

const AFTER: &str = "\
⎡ Virtual core pointer                    \tid=2\t[master pointer  (3)]
⎜   ↳ ui-act-mouse                            \tid=12\t[slave  pointer  (2)]
⎣ Virtual core keyboard                   \tid=3\t[master keyboard (2)]
    ↳ ui-act-keyboard                         \tid=13\t[slave  keyboard (3)]
⎡ UI Act pointer                          \tid=14\t[master pointer  (15)]
⎜   ↳ UI Act XTEST pointer                    \tid=16\t[slave  pointer  (14)]
⎣ UI Act keyboard                         \tid=15\t[master keyboard (14)]
    ↳ UI Act XTEST keyboard                   \tid=17\t[slave  keyboard (15)]";

#[test]
fn device_ids_from_listing() {
    assert_eq!(find_device_id(BEFORE, "ui-act-mouse"), Some(12));
    assert_eq!(find_device_id(BEFORE, "ui-act-keyboard"), Some(13));
    assert_eq!(find_device_id(AFTER, "UI Act pointer"), Some(14));
    assert_eq!(find_device_id(AFTER, "UI Act keyboard"), Some(15));
    assert_eq!(find_device_id(BEFORE, "UI Act pointer"), None);
    assert_eq!(find_device_id("", "x"), None);
}

#[test]
fn device_line_needs_numeric_id_field() {
    let listing = "dev one\tid=x1\nxid=7 dev one\nthe dev one\tid=-8\t[slave]";
    assert_eq!(find_device_id(listing, "dev one"), Some(-8));
    assert_eq!(find_device_id("dev\tid=99999999999", "dev"), None);
    assert_eq!(find_device_id("dev id=+5 id=6", "dev"), Some(5));
}

#[test]
fn decimal_parsing_matches_i32_range() {
    assert_eq!(parse_decimal_i32(&['0']), Some(0));
    assert_eq!(parse_decimal_i32(&['2', '1', '4', '7', '4', '8', '3', '6', '4', '7']), Some(i32::MAX));
    assert_eq!(parse_decimal_i32(&['-', '2', '1', '4', '7', '4', '8', '3', '6', '4', '8']), Some(i32::MIN));
    assert_eq!(parse_decimal_i32(&['2', '1', '4', '7', '4', '8', '3', '6', '4', '8']), None);
    assert_eq!(parse_decimal_i32(&['-', '2', '1', '4', '7', '4', '8', '3', '6', '4', '9']), None);
    assert_eq!(parse_decimal_i32(&['+', '1', '2']), Some(12));
    assert_eq!(parse_decimal_i32(&['-']), None);
    assert_eq!(parse_decimal_i32(&[]), None);
    assert_eq!(parse_decimal_i32(&['1', 'a']), None);
    assert_eq!(parse_decimal_i32(&['0', '0', '7']), Some(7));
}

fn master(pointer_id: i32, keyboard_id: i32) -> XInputMaster {
    XInputMaster { name: "UI Act".to_string(), pointer_id, keyboard_id }
}

#[test]
fn seat_is_created_once_then_resolved() {
    let mut setup = SeatSetup::new("UI Act");
    assert_eq!(
        setup.on_listing(BEFORE),
        SeatCommand::CreateMaster { name: "UI Act".to_string(), settle_ms: SEAT_SETTLE_MS }
    );
    assert_eq!(setup.phase, SeatPhase::Created);
    assert_eq!(setup.on_listing(AFTER), SeatCommand::Ready(master(14, 15)));
    assert_eq!(setup.phase, SeatPhase::Ready);
}

#[test]
fn seat_creation_is_idempotent() {
    let mut first = SeatSetup::new("UI Act");
    let _ = first.on_listing(BEFORE);
    let first_result = first.on_listing(AFTER);
    let mut second = SeatSetup::new("UI Act");
    let second_result = second.on_listing(AFTER);
    assert_eq!(first_result, SeatCommand::Ready(master(14, 15)));
    assert_eq!(second_result, first_result);
    assert_eq!(second.phase, SeatPhase::Ready);
}

#[test]
fn seat_missing_after_creation_fails() {
    let mut setup = SeatSetup::new("UI Act");
    let _ = setup.on_listing(BEFORE);
    assert_eq!(
        setup.on_listing(BEFORE),
        SeatCommand::Fail(InputError::SeatResolutionFailed("UI Act".to_string()))
    );
    assert_eq!(setup.phase, SeatPhase::Failed);
}

#[test]
fn seat_needs_both_halves() {
    let half = "⎡ UI Act pointer \tid=14\t[master pointer  (15)]\n";
    let mut setup = SeatSetup::new("UI Act");
    assert!(matches!(setup.on_listing(half), SeatCommand::CreateMaster { .. }));
}

#[test]
fn unicode_whitespace_separates_fields() {
    assert_eq!(find_device_id("d\u{a0}id=5", "d"), Some(5));
    assert_eq!(find_device_id("dev\u{3000}id=7\u{2003}[slave]", "dev"), Some(7));
    assert_eq!(find_device_id("d\u{200b}id=5", "d"), None);
}

#[test]
fn crlf_line_endings() {
    assert_eq!(find_device_id("mouse id=3\r\nkeys id=4\r\n", "keys"), Some(4));
    assert_eq!(find_device_id("a\r\nb id=9", "a\r"), None);
    assert_eq!(find_device_id("a\r id=9", "a\r"), Some(9));
}
