use kernel_core::net::pump_round;
use kernel_core::notify::NetWakers;
use kernel_core::notify::NotifyCell;
use kernel_core::notify::WaiterSet;
use kernel_core::notify::notify_rx;
use kernel_core::notify::notify_tx;

#[test]
fn poll_before_notify_is_pending() {
    let mut c = NotifyCell::new();
    assert!(!c.poll());
    assert!(c.registered);
}

#[test]
fn notify_then_poll_resolves() {
    let mut c = NotifyCell::new();
    c.notify();
    assert!(c.poll());
    // The notification was consumed: the next poll parks again.
    assert!(!c.poll());
}

#[test]
fn notify_between_polls_is_not_lost() {
    let mut c = NotifyCell::new();
    assert!(!c.poll());
    let woke = c.notify();
    assert!(woke, "the parked waker must be woken");
    assert!(c.poll());
}

#[test]
fn notify_without_waiter_wakes_nobody() {
    let mut c = NotifyCell::new();
    assert!(!c.notify());
}

#[test]
fn net_wakers_are_independent() {
    let mut w = NetWakers::new();
    notify_tx(&mut w);
    assert!(w.tx.ready);
    assert!(!w.rx.ready);
    notify_rx(&mut w);
    assert!(w.rx.ready);
}

#[test]
fn waiter_set_releases_everyone() {
    let mut ws = WaiterSet::new();
    let a = ws.wait_for_socket_state_change();
    let b = ws.wait_for_socket_state_change();
    assert_eq!((a, b), (0, 1));
    assert!(!ws.poll_waiter(a));
    ws.notify_all();
    assert!(ws.poll_waiter(a));
    assert!(ws.poll_waiter(b));
}

#[test]
fn pump_round_notifies_only_on_change() {
    let mut ws = WaiterSet::new();
    let a = ws.wait_for_socket_state_change();
    assert!(!pump_round(&vec![false, false], &mut ws));
    assert!(!ws.poll_waiter(a));
    assert!(pump_round(&vec![false, true], &mut ws));
    assert!(ws.poll_waiter(a));
}
