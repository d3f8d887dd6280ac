//! The keyboard pipeline: the interrupt-fed scancode queue, the PS/2
//! scancode decoder, and the fan-out of decoded keys to every open key
//! stream.
//!
//! The keyboard interrupt handler pushes raw scancodes into a bounded
//! lock-free queue (dropping input with a warning when it is full, since a
//! handler must never block).  A forwarding task drains the queue, decodes
//! scancodes into keys, and pushes each key to every registered stream.
use crate::notify::NotifyCell;
use crate::notify::spec_notify;
use crate::notify::spec_poll_state;
use vstd::prelude::*;

verus! {

/// Capacity of the raw scancode queue.
pub const SCANCODE_QUEUE_CAP: usize = 100;

/// Capacity of each key stream's queue.
pub const KEY_QUEUE_CAP: usize = 100;

/// The scancodes held by the interrupt-side queue, oldest first.
pub uninterp spec fn byte_queue(q: crossbeam_queue::ArrayQueue<u8>) -> Seq<u8>;

/// The fixed capacity a scancode queue was created with.
pub uninterp spec fn byte_queue_cap(q: crossbeam_queue::ArrayQueue<u8>) -> nat;

/// Relies on crossbeam_queue::ArrayQueue::new: an empty queue of the given
/// capacity (which must be non-zero, or the constructor panics).
#[verifier::external_body]
fn byte_queue_new(cap: usize) -> (q: crossbeam_queue::ArrayQueue<u8>)
    requires
        cap > 0,
    ensures
        byte_queue(q) == Seq::<u8>::empty(),
        byte_queue_cap(q) == cap,
{
    crossbeam_queue::ArrayQueue::new(cap)
}

/// Relies on crossbeam_queue::ArrayQueue::push_mut: appends at the tail,
/// or hands the value back when the queue is full.
#[verifier::external_body]
fn byte_queue_push(q: &mut crossbeam_queue::ArrayQueue<u8>, v: u8) -> (ok: bool)
    ensures
        byte_queue_cap(*final(q)) == byte_queue_cap(*old(q)),
        byte_queue(*old(q)).len() < byte_queue_cap(*old(q)) ==> ok && byte_queue(*final(q))
            == byte_queue(*old(q)).push(v),
        byte_queue(*old(q)).len() >= byte_queue_cap(*old(q)) ==> !ok && byte_queue(*final(q))
            == byte_queue(*old(q)),
{
    q.push_mut(v).is_ok()
}

/// Relies on crossbeam_queue::ArrayQueue::pop_mut: removes and returns the
/// head, or `None` when the queue is empty.
#[verifier::external_body]
fn byte_queue_pop(q: &mut crossbeam_queue::ArrayQueue<u8>) -> (r: Option<u8>)
    ensures
        byte_queue_cap(*final(q)) == byte_queue_cap(*old(q)),
        byte_queue(*old(q)).len() > 0 ==> r == Some(byte_queue(*old(q))[0]) && byte_queue(
            *final(q),
        ) == byte_queue(*old(q)).drop_first(),
        byte_queue(*old(q)).len() == 0 ==> r is None && byte_queue(*final(q)) == byte_queue(
            *old(q),
        ),
{
    q.pop_mut()
}

#[verifier::external_type_specification]
#[verifier::external_body]
pub struct ExKeyEvent(pc_keyboard::KeyEvent);

#[verifier::external_type_specification]
#[verifier::external_body]
pub struct ExKeyCode(pc_keyboard::KeyCode);

/// A decoded key press: a printable character, or a non-character key.
#[derive(Clone, Copy, Debug)]
pub enum Key {
    Unicode(char),
    Raw(pc_keyboard::KeyCode),
}

/// The scancode decoder's state.  It holds pc_keyboard's PS/2 decoder,
/// whose layout and scancode-set type parameters carry trait bounds the
/// verifier cannot take; the struct is therefore opaque and its methods
/// are the trusted boundary.
#[verifier::external_body]
pub struct KeyDecoder {
    kb: pc_keyboard::PS2Keyboard<pc_keyboard::layouts::Us104Key, pc_keyboard::ScancodeSet1>,
}

impl KeyDecoder {
    /// Relies on pc_keyboard::PS2Keyboard::new with the US 104-key layout,
    /// scancode set 1, and control characters left untranslated.
    #[verifier::external_body]
    pub fn new() -> KeyDecoder {
        KeyDecoder {
            kb: pc_keyboard::PS2Keyboard::new(
                pc_keyboard::ScancodeSet1::new(),
                pc_keyboard::layouts::Us104Key,
                pc_keyboard::HandleControl::Ignore,
            ),
        }
    }

    /// Relies on pc_keyboard::PS2Keyboard::add_byte: feeds one scancode to
    /// the decoder's state machine; a completed key event comes back, a
    /// decode error or an incomplete multi-byte sequence does not.
    #[verifier::external_body]
    fn add_byte(&mut self, code: u8) -> (r: Option<pc_keyboard::KeyEvent>) {
        match self.kb.add_byte(code) {
            Ok(ev) => ev,
            Err(_) => None,
        }
    }

    /// Relies on pc_keyboard::PS2Keyboard::process_keyevent: applies the
    /// layout and modifier state to a key event.
    #[verifier::external_body]
    fn process_event(&mut self, ev: pc_keyboard::KeyEvent) -> (r: Option<Key>) {
        match self.kb.process_keyevent(ev) {
            Some(pc_keyboard::DecodedKey::Unicode(c)) => Some(Key::Unicode(c)),
            Some(pc_keyboard::DecodedKey::RawKey(k)) => Some(Key::Raw(k)),
            None => None,
        }
    }

    /// Feed one scancode through both decoder stages.
    pub fn decode(&mut self, scancode: u8) -> (r: Option<Key>) {
        match self.add_byte(scancode) {
            Some(ev) => self.process_event(ev),
            None => None,
        }
    }
}

/// The interrupt-fed scancode queue and the waker of the task draining it.
pub struct ScancodeStream {
    pub queue: crossbeam_queue::ArrayQueue<u8>,
    pub waker: NotifyCell,
}

impl ScancodeStream {
    /// The queued scancodes, oldest first.
    pub closed spec fn scancodes(&self) -> Seq<u8> {
        byte_queue(self.queue)
    }

    pub closed spec fn cap(&self) -> nat {
        byte_queue_cap(self.queue)
    }

    pub fn new() -> (s: ScancodeStream)
        ensures
            s.scancodes() == Seq::<u8>::empty(),
            s.cap() == SCANCODE_QUEUE_CAP,
            !s.waker.ready,
            !s.waker.registered,
    {
        ScancodeStream { queue: byte_queue_new(SCANCODE_QUEUE_CAP), waker: NotifyCell::new() }
    }

    /// One poll of the stream: take the oldest scancode, or park the
    /// waker.
    pub fn poll_next(&mut self) -> (r: Option<u8>)
        ensures
            final(self).cap() == old(self).cap(),
            old(self).scancodes().len() > 0 ==> r == Some(old(self).scancodes()[0]) && final(self).scancodes() == old(self).scancodes().drop_first() && final(self).waker == old(self).waker,
            old(self).scancodes().len() == 0 ==> r is None && final(self).scancodes() == old(self).scancodes() && final(self).waker == spec_poll_state(old(self).waker),
    {
        match byte_queue_pop(&mut self.queue) {
            Some(code) => Some(code),
            None => {
                self.waker.poll();
                None
            },
        }
    }
}

/// Called by the keyboard interrupt handler; must not block or allocate.
/// Queues the scancode and wakes the forwarding task, or drops the input
/// (the caller logs a warning) when the queue is full.
pub fn add_scancode(stream: &mut ScancodeStream, scancode: u8) -> (accepted: bool)
    ensures
        final(stream).cap() == old(stream).cap(),
        old(stream).scancodes().len() < old(stream).cap() ==> accepted && final(stream).scancodes()
            == old(stream).scancodes().push(scancode) && final(stream).waker == spec_notify(
            old(stream).waker,
        ),
        old(stream).scancodes().len() >= old(stream).cap() ==> !accepted && final(stream).scancodes() == old(stream).scancodes() && final(stream).waker == old(stream).waker,
{
    if byte_queue_push(&mut stream.queue, scancode) {
        stream.waker.notify();
        true
    } else {
        false
    }
}

/// One key stream's bounded queue of decoded keys.
pub struct KeyQueue {
    pub items: Vec<Key>,
    pub waker: NotifyCell,
}

/// The registry of open key streams; every decoded key is fanned out to
/// all of them.
pub struct KeyStreams {
    pub streams: Vec<KeyQueue>,
}

impl KeyStreams {
    pub fn new() -> (s: KeyStreams)
        ensures
            s.streams@.len() == 0,
    {
        KeyStreams { streams: Vec::new() }
    }

    /// Open a new stream; its handle is its slot.
    pub fn register(&mut self) -> (id: usize)
        ensures
            id == old(self).streams@.len(),
            final(self).streams@.len() == old(self).streams@.len() + 1,
            forall|j: int|
                0 <= j < old(self).streams@.len() ==> #[trigger] final(self).streams@[j] == old(self).streams@[j],
            final(self).streams@[id as int].items@.len() == 0,
            !final(self).streams@[id as int].waker.ready,
    {
        let id = self.streams.len();
        self.streams.push(KeyQueue { items: Vec::new(), waker: NotifyCell::new() });
        id
    }

    /// Fan a decoded key out to every stream and wake their readers.  A
    /// full stream queue is a programming error, so room is a
    /// precondition.
    pub fn push_all(&mut self, key: Key)
        requires
            forall|j: int|
                0 <= j < old(self).streams@.len() ==> #[trigger] old(self).streams@[j].items@.len() < KEY_QUEUE_CAP,
        ensures
            final(self).streams@.len() == old(self).streams@.len(),
            forall|j: int|
                0 <= j < final(self).streams@.len() ==> #[trigger] final(self).streams@[j].items@
                    == old(self).streams@[j].items@.push(key) && final(self).streams@[j].waker
                    == spec_notify(old(self).streams@[j].waker),
    {
        let n = self.streams.len();
        let mut i: usize = 0;
        while i < n
            invariant
                i <= n,
                n == self.streams@.len(),
                self.streams@.len() == old(self).streams@.len(),
                forall|j: int|
                    i <= j < n ==> #[trigger] self.streams@[j] == old(self).streams@[j],
                forall|j: int|
                    0 <= j < i ==> #[trigger] self.streams@[j].items@ == old(self).streams@[j].items@.push(key) && self.streams@[j].waker == spec_notify(
                        old(self).streams@[j].waker,
                    ),
            decreases n - i,
        {
            let ghost prev_streams = self.streams@;
            let q = &mut self.streams[i];
            q.items.push(key);
            q.waker.notify();
            proof {
                assert(self.streams@ == prev_streams.update(i as int, self.streams@[i as int]));
                assert(forall|j: int|
                    0 <= j < n && j != i ==> self.streams@[j] == #[trigger] prev_streams[j]);
                assert(self.streams@[i as int].items@ == old(self).streams@[i as int].items@.push(
                    key,
                ));
                assert(self.streams@[i as int].waker == spec_notify(
                    old(self).streams@[i as int].waker,
                ));
            }
            i = i + 1;
        }
    }

    /// One poll of stream `id`: take its oldest key, or park its waker.
    pub fn poll_next(&mut self, id: usize) -> (r: Option<Key>)
        requires
            id < old(self).streams@.len(),
        ensures
            final(self).streams@.len() == old(self).streams@.len(),
            forall|j: int|
                0 <= j < final(self).streams@.len() && j != id ==> #[trigger] final(self).streams@[j] == old(self).streams@[j],
            old(self).streams@[id as int].items@.len() > 0 ==> (r matches Some(k) && k == old(self).streams@[id as int].items@[0]) && final(self).streams@[id as int].items@ == old(self).streams@[id as int].items@.drop_first() && final(self).streams@[id as int].waker
                == old(self).streams@[id as int].waker,
            old(self).streams@[id as int].items@.len() == 0 ==> r is None && final(self).streams@[id as int].items@ == old(self).streams@[id as int].items@ && final(self).streams@[id as int].waker == spec_poll_state(old(self).streams@[id as int].waker),
    {
        let q = &mut self.streams[id];
        if q.items.len() > 0 {
            let k = q.items.remove(0);
            Some(k)
        } else {
            q.waker.poll();
            None
        }
    }
}

/// Drive one scancode through the decoder and, when it completes a key,
/// fan the key out to every open stream.  Returns the decoded key, if any.
pub fn forward_scancode(dec: &mut KeyDecoder, streams: &mut KeyStreams, scancode: u8) -> (r: Option<
    Key>)
    requires
        forall|j: int|
            0 <= j < old(streams).streams@.len() ==> #[trigger] old(streams).streams@[j].items@.len() < KEY_QUEUE_CAP,
    ensures
        r is None ==> final(streams).streams@ == old(streams).streams@,
        r matches Some(k) ==> final(streams).streams@.len() == old(streams).streams@.len() && forall|
            j: int,
        |
            0 <= j < final(streams).streams@.len() ==> #[trigger] final(streams).streams@[j].items@ == old(streams).streams@[j].items@.push(k) && final(streams).streams@[j].waker == spec_notify(old(streams).streams@[j].waker),
{
    match dec.decode(scancode) {
        Some(key) => {
            streams.push_all(key);
            Some(key)
        },
        None => None,
    }
}

} // verus!
