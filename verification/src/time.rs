//! The PIT-driven clock: tick-to-time conversion, sleep bookkeeping and the
//! yield future.
//!
//! The timer interrupt increments a tick counter; everything here is a pure
//! function of that counter.  The PIT runs in square-wave mode with divider
//! 1193 off its 3,579,545 / 3 Hz input clock, so one tick lasts
//! 3,579 / 3,579,545 seconds (about a millisecond), and `c` ticks amount to
//! `c * 3_579_000 / 3_579_545` milliseconds, which the conversions round to
//! the nearest integer.
use vstd::arithmetic::div_mod::lemma_div_is_ordered;
use vstd::arithmetic::div_mod::lemma_div_multiples_vanish;
use vstd::arithmetic::mul::lemma_mul_inequality;
use vstd::prelude::*;

verus! {

/// The value programmed into PIT channel 0 at boot.
pub const PIT_DIVIDER: u16 = 1193;

/// Tick counts are kept below this bound so that times in microseconds
/// still fit in a signed 64-bit result.
pub const MAX_TICKS: u64 = 0x2000_0000_0000;

/// Milliseconds after boot once `ticks` timer interrupts have fired:
/// `ticks * 3_579_000 / 3_579_545` rounded to the nearest integer.
pub open spec fn time_ms_spec(ticks: u64) -> int {
    (ticks * 7_158_000 + 3_579_545) / 7_159_090
}

/// Microseconds after boot once `ticks` timer interrupts have fired,
/// rounded to the nearest integer.
pub open spec fn time_us_spec(ticks: u64) -> int {
    (ticks * 7_158_000_000 + 3_579_545) / 7_159_090
}

/// Milliseconds since boot for a given tick count.
pub fn time_ms(ticks: u64) -> (r: i64)
    requires
        ticks < MAX_TICKS,
    ensures
        r == time_ms_spec(ticks),
        r >= 0,
{
    let n: u128 = (ticks as u128) * 7_158_000 + 3_579_545;
    let q: u128 = n / 7_159_090;
    proof {
        assert(n as int <= MAX_TICKS as int * 7_159_090) by {
            lemma_mul_inequality(ticks as int, MAX_TICKS as int, 7_158_000);
        }
        lemma_div_is_ordered(n as int, MAX_TICKS as int * 7_159_090, 7_159_090);
        lemma_div_multiples_vanish(MAX_TICKS as int, 7_159_090);
    }
    q as i64
}

/// Microseconds since boot for a given tick count.
pub fn time_us(ticks: u64) -> (r: i64)
    requires
        ticks < MAX_TICKS,
    ensures
        r == time_us_spec(ticks),
        r >= 0,
{
    let n: u128 = (ticks as u128) * 7_158_000_000 + 3_579_545;
    let q: u128 = n / 7_159_090;
    proof {
        assert(n as int <= (MAX_TICKS as int * 1000) * 7_159_090) by {
            lemma_mul_inequality(ticks as int, MAX_TICKS as int, 7_158_000_000);
        }
        lemma_div_is_ordered(n as int, (MAX_TICKS as int * 1000) * 7_159_090, 7_159_090);
        lemma_div_multiples_vanish(MAX_TICKS as int * 1000, 7_159_090);
    }
    q as i64
}

/// The clock never runs backwards: reading the time at a later tick gives a
/// value at least as large as at any earlier tick.
pub proof fn lemma_time_ms_monotonic(t1: u64, t2: u64)
    requires
        t1 <= t2,
    ensures
        time_ms_spec(t1) <= time_ms_spec(t2),
{
    lemma_mul_inequality(t1 as int, t2 as int, 7_158_000);
    lemma_div_is_ordered(
        t1 as int * 7_158_000 + 3_579_545,
        t2 as int * 7_158_000 + 3_579_545,
        7_159_090,
    );
}

/// Monotonicity holds for the microsecond reading as well.
pub proof fn lemma_time_us_monotonic(t1: u64, t2: u64)
    requires
        t1 <= t2,
    ensures
        time_us_spec(t1) <= time_us_spec(t2),
{
    lemma_mul_inequality(t1 as int, t2 as int, 7_158_000_000);
    lemma_div_is_ordered(
        t1 as int * 7_158_000_000 + 3_579_545,
        t2 as int * 7_158_000_000 + 3_579_545,
        7_159_090,
    );
}

/// Milliseconds elapsed between two tick readings.
pub fn elapsed_ms(start_ticks: u64, now_ticks: u64) -> (r: i64)
    requires
        start_ticks <= now_ticks < MAX_TICKS,
    ensures
        r == time_ms_spec(now_ticks) - time_ms_spec(start_ticks),
        r >= 0,
{
    proof {
        lemma_time_ms_monotonic(start_ticks, now_ticks);
    }
    time_ms(now_ticks) - time_ms(start_ticks)
}

/// The bytes that program a PIT channel: the command selects the channel
/// with lobyte/hibyte access in square-wave mode, and the divider follows
/// little-endian on the channel's data port.
pub fn pit_program_bytes(divider: u16, channel: u8) -> (r: (u8, u8, u8))
    requires
        channel < 4,
    ensures
        r.0 == (channel << 6) | (3u8 << 4) | 6u8,
        r.1 == divider as u8,
        r.2 == (divider >> 8) as u8,
{
    let access_mode_both: u8 = 3;
    let square_wave: u8 = 6;
    let cmd = (channel << 6) | (access_mode_both << 4) | square_wave;
    (cmd, divider as u8, (divider >> 8) as u8)
}

/// One parked sleeper: the task to wake and its deadline in milliseconds.
#[derive(Clone, Copy, Debug, PartialEq, Eq, Structural)]
pub struct SleepEntry {
    pub id: u64,
    pub wake_at_ms: u64,
}

/// The entry that `sleep` registers for a task sleeping `duration_ms`
/// starting at `start_ticks`.
pub open spec fn sleep_entry(id: u64, start_ticks: u64, duration_ms: u64) -> SleepEntry {
    SleepEntry { id, wake_at_ms: (time_ms_spec(start_ticks) + duration_ms) as u64 }
}

/// Whether a sleeper's deadline has passed at tick `now_ticks`.
pub open spec fn sleep_due(e: SleepEntry, now_ticks: u64) -> bool {
    time_ms_spec(now_ticks) >= e.wake_at_ms
}

/// The state of one sleep future.
#[derive(Clone, Copy, Debug, PartialEq, Eq, Structural)]
pub struct Sleep {
    pub wake_at_ms: u64,
}

impl Sleep {
    /// Ready exactly when the clock has reached the deadline.
    pub fn poll(&self, now_ticks: u64) -> (ready: bool)
        requires
            now_ticks < MAX_TICKS,
        ensures
            ready <==> time_ms_spec(now_ticks) >= self.wake_at_ms,
    {
        let now_ms = time_ms(now_ticks);
        now_ms as u64 >= self.wake_at_ms
    }
}

/// Start a sleep of `duration_ms` at tick `now_ticks`: registers a wake
/// entry for `id` in the sleeper list and returns the future's state.
pub fn sleep(sleepers: &mut Vec<SleepEntry>, id: u64, now_ticks: u64, duration_ms: u64) -> (s:
    Sleep)
    requires
        now_ticks < MAX_TICKS,
        time_ms_spec(now_ticks) + duration_ms <= u64::MAX,
    ensures
        s.wake_at_ms == time_ms_spec(now_ticks) + duration_ms,
        final(sleepers)@ == old(sleepers)@.push(sleep_entry(id, now_ticks, duration_ms)),
{
    let now_ms = time_ms(now_ticks) as u64;
    let wake_at_ms = now_ms + duration_ms;
    sleepers.push(SleepEntry { id, wake_at_ms });
    Sleep { wake_at_ms }
}

/// The sleepers whose deadline has passed at `now_ticks`.
pub open spec fn due_pred(now_ticks: u64) -> spec_fn(SleepEntry) -> bool {
    |e: SleepEntry| sleep_due(e, now_ticks)
}

/// The sleepers whose deadline is still ahead at `now_ticks`.
pub open spec fn not_due_pred(now_ticks: u64) -> spec_fn(SleepEntry) -> bool {
    |e: SleepEntry| !sleep_due(e, now_ticks)
}

/// The task id carried by a sleep entry.
pub open spec fn entry_id() -> spec_fn(SleepEntry) -> u64 {
    |e: SleepEntry| e.id
}

/// Walk the sleeper list at tick `now_ticks`: remove every entry whose
/// deadline has passed and return their ids, keeping the rest in order.
pub fn wake_sleepers(sleepers: &mut Vec<SleepEntry>, now_ticks: u64) -> (woken: Vec<u64>)
    requires
        now_ticks < MAX_TICKS,
    ensures
        final(sleepers)@ == old(sleepers)@.filter(not_due_pred(now_ticks)),
        woken@ == old(sleepers)@.filter(due_pred(now_ticks)).map_values(entry_id()),
{
    let n = sleepers.len();
    let mut kept: Vec<SleepEntry> = Vec::new();
    let mut woken: Vec<u64> = Vec::new();
    let now_ms = time_ms(now_ticks) as u64;
    let mut i: usize = 0;
    proof {
        assert(old(sleepers)@.take(0) =~= Seq::<SleepEntry>::empty());
        reveal(Seq::filter);
    }
    while i < n
        invariant
            i <= n,
            n == sleepers@.len(),
            sleepers@ == old(sleepers)@,
            now_ticks < MAX_TICKS,
            now_ms == time_ms_spec(now_ticks),
            kept@ == old(sleepers)@.take(i as int).filter(not_due_pred(now_ticks)),
            woken@ == old(sleepers)@.take(i as int).filter(due_pred(now_ticks)).map_values(
                entry_id(),
            ),
        decreases n - i,
    {
        let e = sleepers[i];
        proof {
            broadcast use Seq::lemma_filter_push;

            let prefix = old(sleepers)@.take(i as int);
            assert(old(sleepers)@.take(i as int + 1) =~= prefix.push(e));
            if sleep_due(e, now_ticks) {
                assert(prefix.push(e).filter(due_pred(now_ticks)) == prefix.filter(
                    due_pred(now_ticks),
                ).push(e));
                assert(prefix.filter(due_pred(now_ticks)).push(e).map_values(entry_id())
                    =~= prefix.filter(due_pred(now_ticks)).map_values(entry_id()).push(e.id));
            }
        }
        if now_ms >= e.wake_at_ms {
            woken.push(e.id);
        } else {
            kept.push(e);
        }
        i = i + 1;
    }
    proof {
        assert(old(sleepers)@.take(n as int) =~= old(sleepers)@);
    }
    *sleepers = kept;
    woken
}

/// A sleeper never resolves early: if the entry registered for a sleep of
/// `duration_ms` starting at `start_ticks` is due at `now_ticks`, then at
/// least `duration_ms` milliseconds of clock time have elapsed.  (That it
/// also resolves soon after the deadline is a scheduling-load property the
/// state alone cannot express.)
pub proof fn lemma_sleep_not_early(id: u64, start_ticks: u64, duration_ms: u64, now_ticks: u64)
    requires
        time_ms_spec(start_ticks) + duration_ms <= u64::MAX,
        sleep_due(sleep_entry(id, start_ticks, duration_ms), now_ticks),
    ensures
        time_ms_spec(now_ticks) - time_ms_spec(start_ticks) >= duration_ms,
{
}

/// The state of one yield future: pending on its first poll (after waking
/// itself so the task is immediately rescheduled), ready on the second.
#[derive(Clone, Copy, Debug, PartialEq, Eq, Structural)]
pub struct Yield {
    pub polled: bool,
}

impl Yield {
    /// True when the poll completes; false when the future parked itself
    /// for one more round.
    pub fn poll(&mut self) -> (ready: bool)
        ensures
            ready == old(self).polled,
            final(self).polled,
    {
        if self.polled {
            true
        } else {
            self.polled = true;
            false
        }
    }
}

/// A fresh yield future, which will complete on its second poll.
pub fn yield_now() -> (y: Yield)
    ensures
        !y.polled,
{
    Yield { polled: false }
}

} // verus!
