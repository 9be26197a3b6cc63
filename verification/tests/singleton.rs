use keepkey::board::KeepKeyBoard;
use keepkey::singleton::{BorrowState, SingletonResource};
use keepkey::types::FatalError;

#[test]
fn call_once_runs_only_the_first_factory() {
    let mut s: SingletonResource<u32> = SingletonResource::new();
    let mut runs: usize = 0;
    let factories: [fn() -> u32; 4] = [|| 11, || 22, || 33, || 44];
    for (i, f) in factories.iter().enumerate() {
        let installed = s.call_once(*f);
        if installed {
            runs += 1;
        }
        assert_eq!(installed, i == 0);
    }
    assert_eq!(runs, 1);
    assert_eq!(s.value, Some(11), "the first factory's value stays");
}

#[test]
fn acquire_conflicts_are_fatal_not_queued() {
    let mut s: SingletonResource<u8> = SingletonResource::new();
    let _ = s.call_once(|| 5);
    assert_eq!(s.try_acquire(), Ok(()));
    assert_eq!(s.try_acquire(), Err(FatalError::ResourceBusy));
    s.release();
    assert_eq!(s.try_acquire(), Ok(()));
}

#[test]
fn force_steal_wins_from_any_state() {
    let mut s: SingletonResource<u8> = SingletonResource::new();
    let _ = s.call_once(|| 5);
    assert_eq!(s.try_acquire(), Ok(()));
    s.force_steal();
    assert_eq!(s.state, BorrowState::Leaked);
    assert_eq!(s.try_acquire(), Err(FatalError::ResourceBusy));
}

#[test]
fn borrow_reads_the_installed_value() {
    let mut s: SingletonResource<String> = SingletonResource::new();
    let _ = s.call_once(|| String::from("canvas"));
    assert_eq!(s.borrow(), "canvas");
    *s.borrow_mut() = String::from("panel");
    assert_eq!(s.borrow(), "panel");
}

#[test]
fn board_usb_allocator_is_born_once_and_exclusively_borrowed() {
    let mut b = KeepKeyBoard::new();
    assert_eq!(b.usb(), Ok(()));
    let a = b.usb_allocator_mut();
    assert_eq!(a.interface(), 0);
    // a second access while the borrow is held is fatal
    assert_eq!(b.usb(), Err(FatalError::ResourceBusy));
    b.usb_slot.release();
    // the allocator is not re-created: the handed-out number stays gone
    assert_eq!(b.usb(), Ok(()));
    assert_eq!(b.usb_allocator_mut().interface(), 1);
}
