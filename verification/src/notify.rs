//! One-shot notification primitives: the atomic waker cells that connect
//! interrupt handlers to waiting tasks, and the waiter list drained by the
//! network pump.
//!
//! A cell is a pair `(ready, registered)`.  `notify` sets `ready` before
//! delivering the wake, and a poll that comes up empty registers its waker
//! and re-checks `ready`, so a notification can never fall between the
//! check and the registration.  Polls and notifies run under disabled
//! interrupts, so each is one atomic step of this state machine.
use vstd::prelude::*;

verus! {

/// The state of one one-shot waiter cell.
#[derive(Clone, Copy, Debug, PartialEq, Eq, Structural)]
pub struct NotifyCell {
    /// A notification has arrived and has not yet been consumed.
    pub ready: bool,
    /// A waker is parked in the cell's slot.
    pub registered: bool,
}

/// The cell after `notify`: ready, with the parked waker (if any) taken out
/// and invoked.
pub open spec fn spec_notify(c: NotifyCell) -> NotifyCell {
    NotifyCell { ready: true, registered: false }
}

/// The cell after one poll.
pub open spec fn spec_poll_state(c: NotifyCell) -> NotifyCell {
    if c.ready {
        NotifyCell { ready: false, registered: c.registered }
    } else {
        NotifyCell { ready: false, registered: true }
    }
}

/// What one poll returns: ready exactly when a notification was pending.
pub open spec fn spec_poll_ready(c: NotifyCell) -> bool {
    c.ready
}

impl NotifyCell {
    /// A fresh cell: no notification pending, no waker parked.
    pub fn new() -> (c: NotifyCell)
        ensures
            !c.ready,
            !c.registered,
    {
        NotifyCell { ready: false, registered: false }
    }

    /// Deliver a notification: mark the cell ready, then wake the parked
    /// waker.  Returns whether a waker was there to wake (the caller
    /// reschedules that task).
    pub fn notify(&mut self) -> (woke: bool)
        ensures
            *final(self) == spec_notify(*old(self)),
            woke == old(self).registered,
    {
        let woke = self.registered;
        self.ready = true;
        self.registered = false;
        woke
    }

    /// One poll of the waiting future: consume a pending notification, or
    /// park the waker and re-check before reporting pending.
    pub fn poll(&mut self) -> (ready: bool)
        ensures
            ready == spec_poll_ready(*old(self)),
            *final(self) == spec_poll_state(*old(self)),
    {
        if self.ready {
            self.ready = false;
            true
        } else {
            self.registered = true;
            false
        }
    }
}

/// No notification is lost: wherever a `notify` lands relative to the
/// waiter's polls -- before the first poll, after a poll that came up empty
/// and parked its waker, or on a fresh cell -- the next poll observes
/// readiness and resolves.
pub proof fn lemma_notification_no_loss(c: NotifyCell)
    ensures
        spec_poll_ready(spec_notify(c)),
        spec_poll_ready(spec_notify(spec_poll_state(c))),
{
}

/// What `notify` reports: whether a parked waker was woken.
pub open spec fn spec_notify_woke(c: NotifyCell) -> bool {
    c.registered
}

/// A notify that follows an empty poll always hands the task back to the
/// scheduler: the empty poll parked the waker, so the notify finds and
/// wakes it.
pub proof fn lemma_notify_wakes_parked(c: NotifyCell)
    requires
        !c.ready,
    ensures
        spec_notify_woke(spec_poll_state(c)),
{
}

/// The process-wide transmit and receive wakers the network stack runs on.
pub struct NetWakers {
    pub tx: NotifyCell,
    pub rx: NotifyCell,
}

impl NetWakers {
    /// Both cells start idle.
    pub fn new() -> (w: NetWakers)
        ensures
            !w.tx.ready,
            !w.tx.registered,
            !w.rx.ready,
            !w.rx.registered,
    {
        NetWakers { tx: NotifyCell::new(), rx: NotifyCell::new() }
    }
}

/// A socket pushed data to send: notify the transmit waker so the pump task
/// polls the interface.
pub fn notify_tx(wakers: &mut NetWakers) -> (woke: bool)
    ensures
        final(wakers).tx == spec_notify(old(wakers).tx),
        final(wakers).rx == old(wakers).rx,
        woke == old(wakers).tx.registered,
{
    wakers.tx.notify()
}

/// The NIC interrupt observed a received frame: notify the receive waker.
pub fn notify_rx(wakers: &mut NetWakers) -> (woke: bool)
    ensures
        final(wakers).rx == spec_notify(old(wakers).rx),
        final(wakers).tx == old(wakers).tx,
        woke == old(wakers).rx.registered,
{
    wakers.rx.notify()
}

/// The list of waiters parked on socket progress, drained by the pump task
/// whenever an interface poll reports a change.
pub struct WaiterSet {
    pub cells: Vec<NotifyCell>,
}

impl WaiterSet {
    pub fn new() -> (w: WaiterSet)
        ensures
            w.cells@.len() == 0,
    {
        WaiterSet { cells: Vec::new() }
    }

    /// Park a new waiter on the next socket state change; returns its slot.
    pub fn wait_for_socket_state_change(&mut self) -> (idx: usize)
        ensures
            final(self).cells@ == old(self).cells@.push(
                NotifyCell { ready: false, registered: false },
            ),
            idx == old(self).cells@.len(),
    {
        let idx = self.cells.len();
        self.cells.push(NotifyCell::new());
        idx
    }

    /// One poll of the waiter in slot `idx`.
    pub fn poll_waiter(&mut self, idx: usize) -> (ready: bool)
        requires
            idx < old(self).cells@.len(),
        ensures
            ready == spec_poll_ready(old(self).cells@[idx as int]),
            final(self).cells@ == old(self).cells@.update(
                idx as int,
                spec_poll_state(old(self).cells@[idx as int]),
            ),
    {
        let cell = &mut self.cells[idx];
        cell.poll()
    }

    /// Socket state advanced: release every parked waiter.
    pub fn notify_all(&mut self)
        ensures
            final(self).cells@.len() == old(self).cells@.len(),
            forall|i: int|
                0 <= i < final(self).cells@.len() ==> #[trigger] final(self).cells@[i]
                    == spec_notify(old(self).cells@[i]),
    {
        let n = self.cells.len();
        let mut i: usize = 0;
        while i < n
            invariant
                i <= n,
                n == self.cells@.len(),
                self.cells@.len() == old(self).cells@.len(),
                forall|j: int|
                    i <= j < n ==> #[trigger] self.cells@[j] == old(self).cells@[j],
                forall|j: int|
                    0 <= j < i ==> #[trigger] self.cells@[j] == spec_notify(old(self).cells@[j]),
            decreases n - i,
        {
            let cell = &mut self.cells[i];
            cell.notify();
            i = i + 1;
        }
    }
}

} // verus!
