use keepkey::board::{BoardEvent, KeepKeyBoard};
use keepkey::canvas::CanvasPixel;
use keepkey::singleton::BorrowState;
use keepkey::types::{FatalError, LedAction, ShutdownError};

fn board_2x4() -> KeepKeyBoard {
    let mut b = KeepKeyBoard::new();
    b.display_canvas_init(2, 4, vec![0; 8]);
    b
}

#[test]
fn init_is_idempotent() {
    let mut b = board_2x4();
    b.display_canvas_init(7, 7, vec![0xff; 49]);
    let g = b.display_canvas().unwrap();
    let c = b.canvas_mut(&g);
    assert_eq!(c.height, 2, "second init must not replace the canvas");
    assert_eq!(c.width, 4);
}

#[test]
fn acquire_and_release_once_refresh_exactly_once() {
    let mut b = board_2x4();
    let g = b.display_canvas().unwrap();
    let c = b.canvas_mut(&g);
    c.set_brightness(9);
    c.draw_iter(&vec![CanvasPixel { x: 1, y: 0, luma: 0xaa }]);
    b.display_canvas_release(g);

    let refreshes: Vec<&BoardEvent> = b
        .events
        .iter()
        .filter(|e| matches!(e, BoardEvent::Refresh(_)))
        .collect();
    assert_eq!(refreshes.len(), 1, "exactly one refresh per acquisition");
    match &b.events[0] {
        BoardEvent::Refresh(s) => {
            assert_eq!(s.buffer, vec![0, 0xaa, 0, 0, 0, 0, 0, 0]);
            assert_eq!(s.brightness, 9);
            assert!(s.buffer_dirty);
        }
        _ => panic!("first command must be the refresh"),
    }
    match &b.events[1] {
        BoardEvent::Led(act) => assert_eq!(*act, LedAction::TglRedLed),
        _ => panic!("second command must toggle the status LED"),
    }
    assert_eq!(b.events.len(), 2);
}

#[test]
fn release_frees_the_borrow_for_the_next_acquisition() {
    let mut b = board_2x4();
    let g = b.display_canvas().unwrap();
    b.display_canvas_release(g);
    assert!(b.display_canvas().is_ok());
}

#[test]
fn double_acquisition_is_fatal() {
    let mut b = board_2x4();
    let _g = b.display_canvas().unwrap();
    match b.display_canvas() {
        Err(e) => assert_eq!(e, FatalError::ResourceBusy),
        Ok(_) => panic!("second borrow must fail fast"),
    }
}

#[test]
fn emergency_path_wins_over_outstanding_borrow() {
    let mut b = board_2x4();
    let _g = b.display_canvas().unwrap();
    b.layout_shutdown_message(&vec![CanvasPixel { x: 0, y: 0, luma: 0xff }]);
    assert_eq!(b.canvas_slot.state, BorrowState::Leaked);
    assert_eq!(b.events.len(), 3);
    assert!(matches!(b.events[0], BoardEvent::DisableInterrupts));
    match &b.events[1] {
        BoardEvent::Refresh(s) => {
            assert_eq!(s.buffer, vec![0xff, 0, 0, 0, 0, 0, 0, 0]);
        }
        _ => panic!("the emergency path must refresh by hand"),
    }
    assert!(matches!(b.events[2], BoardEvent::EnableInterrupts));
}

#[test]
fn emergency_path_clears_before_drawing() {
    let mut b = board_2x4();
    let g = b.display_canvas().unwrap();
    let c = b.canvas_mut(&g);
    c.draw_iter(&vec![CanvasPixel { x: 3, y: 1, luma: 0x55 }]);
    b.layout_shutdown_message(&vec![]);
    let c2 = b.canvas_slot.borrow();
    assert_eq!(c2.buffer, vec![0; 8], "earlier drawing must be wiped");
}

#[test]
fn set_led_records_the_action() {
    let mut b = KeepKeyBoard::new();
    b.set_led(LedAction::SetGreenLed);
    assert_eq!(b.events.len(), 1);
    assert!(matches!(b.events[0], BoardEvent::Led(LedAction::SetGreenLed)));
}

#[test]
fn shutdown_hook_without_error_only_clears_leds() {
    let mut b = board_2x4();
    b.rust_shutdown_hook(ShutdownError::NoError, &vec![]);
    assert_eq!(b.events.len(), 2);
    assert!(matches!(b.events[0], BoardEvent::Led(LedAction::ClrRedLed)));
    assert!(matches!(b.events[1], BoardEvent::Led(LedAction::ClrGreenLed)));
    assert_eq!(b.canvas_slot.state, BorrowState::Free);
}

#[test]
fn shutdown_hook_with_fault_renders_through_emergency_path() {
    let mut b = board_2x4();
    b.rust_shutdown_hook(
        ShutdownError::MemoryFault,
        &vec![CanvasPixel { x: 1, y: 1, luma: 0x11 }],
    );
    assert_eq!(b.canvas_slot.state, BorrowState::Leaked);
    assert!(matches!(b.events[1], BoardEvent::Refresh(_)));
}

#[test]
fn display_refresh_snapshots_the_current_canvas() {
    let mut b = board_2x4();
    let g = b.display_canvas().unwrap();
    let c = b.canvas_mut(&g);
    c.set_powered(false);
    b.display_refresh();
    match &b.events[0] {
        BoardEvent::Refresh(s) => {
            assert!(!s.powered);
            assert!(s.powered_dirty);
            assert_eq!(s.height, 2);
            assert_eq!(s.width, 4);
        }
        _ => panic!("expected a refresh command"),
    }
}
