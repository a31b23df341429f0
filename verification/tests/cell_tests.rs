use uart_irq::guard::{enter_critical_section, GuardedCell};
use uart_irq::transfer::{AlreadyInitialized, NotInitialized, TransferCell};

#[test]
fn one_time_move_in() {
    // First move-in succeeds, the second fails, and a later lock observes
    // the first value, never the second.
    let mut cell: TransferCell<u8> = TransferCell::new_uninitialized(28);
    assert_eq!(cell.try_move_in(65), Ok(()));
    assert_eq!(cell.try_move_in(66), Err(AlreadyInitialized));
    let observed = cell.try_lock(|v| (v, v));
    assert_eq!(observed, Ok(65));
}

#[test]
fn lock_before_init_fails_without_running_callback() {
    let mut cell: TransferCell<u8> = TransferCell::new_uninitialized(28);
    let mut calls = 0u32;
    let r = cell.try_lock(|v| {
        calls += 1;
        (v, ())
    });
    assert_eq!(r, Err(NotInitialized));
    assert_eq!(calls, 0);
}

#[test]
fn lock_after_move_in_runs_callback_once() {
    let mut cell: TransferCell<u8> = TransferCell::new_uninitialized(28);
    cell.try_move_in(1).unwrap();
    let mut calls = 0u32;
    let r = cell.try_lock(|v| {
        calls += 1;
        (v + 1, v)
    });
    assert_eq!(r, Ok(1));
    assert_eq!(calls, 1);
    // The updated value is what the next lock sees.
    assert_eq!(cell.try_lock(|v| (v, v)), Ok(2));
}

#[test]
fn transfer_cell_keeps_its_interrupt_binding() {
    let mut cell: TransferCell<u8> = TransferCell::new_uninitialized(37);
    assert_eq!(cell.target_interrupt(), 37);
    cell.try_move_in(9).unwrap();
    assert_eq!(cell.target_interrupt(), 37);
}

#[test]
fn guarded_cell_put_then_with() {
    let mut cell: GuardedCell<u8> = GuardedCell::new_empty();
    let cs = enter_critical_section();
    cell.put(&cs, 5);
    let doubled = cell.with(|v| (v * 2, v * 2));
    assert_eq!(doubled, 10);
    // The mutation made under the lock sticks.
    let seen = cell.with(|v| (v, v));
    assert_eq!(seen, 10);
}

#[test]
fn guarded_cell_put_replaces() {
    let mut cell: GuardedCell<u8> = GuardedCell::new_empty();
    let cs = enter_critical_section();
    cell.put(&cs, 1);
    cell.put(&cs, 2);
    assert_eq!(cell.with(|v| (v, v)), 2);
}
