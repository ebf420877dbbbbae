use std::cell::RefCell;

use wayvek::error::IoError;
use wayvek::swapchain::Swapchain;
use wayvek::WayvekError;

#[test]
fn slots_alternate_and_first_uses_do_not_wait() {
    let mut swapchain = Swapchain::new();
    let first = swapchain.acquire(|_, _| panic!("nothing was presented yet"));
    assert_eq!(first, Ok(1));
    swapchain.mark_presented(1, 2);
    let second = swapchain.acquire(|_, _| panic!("slot 0 was not presented yet"));
    assert_eq!(second, Ok(0));
}

#[test]
fn reuse_waits_ten_seconds_for_the_last_release_point() {
    let waits = RefCell::new(Vec::new());
    let wait = |point: u64, timeout: i64| {
        waits.borrow_mut().push((point, timeout));
        Ok(())
    };
    let mut swapchain = Swapchain::default();
    assert_eq!(swapchain.acquire(wait), Ok(1));
    swapchain.mark_presented(1, 2);
    assert_eq!(swapchain.acquire(wait), Ok(0));
    swapchain.mark_presented(0, 4);
    assert_eq!(swapchain.acquire(wait), Ok(1));
    swapchain.mark_presented(1, 6);
    assert_eq!(swapchain.acquire(wait), Ok(0));
    assert_eq!(swapchain.acquire(wait), Ok(1));
    assert_eq!(
        *waits.borrow(),
        vec![(2, 10_000_000_000), (4, 10_000_000_000), (6, 10_000_000_000)]
    );
}

#[test]
fn a_failed_wait_is_reported_and_the_slot_stays_taken() {
    let mut swapchain = Swapchain::new();
    swapchain.mark_presented(1, 8);
    let failed = swapchain.acquire(|_, _| Err(WayvekError::Io(IoError::Os(22))));
    assert_eq!(failed, Err(WayvekError::Io(IoError::Os(22))));
    assert_eq!(swapchain.acquire(|_, _| Ok(())), Ok(0));
    let other = swapchain.acquire(|_, _| Err(WayvekError::NoNegotiatedFormat));
    assert_eq!(other, Err(WayvekError::NoNegotiatedFormat));
}

#[test]
fn a_slot_that_is_not_released_in_time_is_reused_anyway() {
    let mut swapchain = Swapchain::new();
    swapchain.mark_presented(1, 8);
    let late = swapchain.acquire(|_, _| Err(WayvekError::Io(IoError::Os(62))));
    assert_eq!(late, Ok(1));
}
