use kernel_core::time::Sleep;
use kernel_core::time::SleepEntry;
use kernel_core::time::sleep;
use kernel_core::time::time_ms;
use kernel_core::time::time_us;
use kernel_core::time::wake_sleepers;
use kernel_core::time::yield_now;

#[test]
fn time_ms_values() {
    // One tick is 3_579 / 3_579_545 s, just under a millisecond.
    assert_eq!(time_ms(0), 0);
    assert_eq!(time_ms(1), 1);
    assert_eq!(time_ms(500), 500);
    assert_eq!(time_ms(1000), 1000);
    // The deficit accumulates: an hour of ticks is short by about half a
    // second of wall time.
    assert_eq!(time_ms(3_600_000), 3_599_452);
}

#[test]
fn time_us_values() {
    assert_eq!(time_us(0), 0);
    assert_eq!(time_us(1), 1000);
    assert_eq!(time_us(1000), 999_848);
    assert_eq!(time_us(3_600_000), 3_599_451_886);
}

#[test]
fn time_ms_never_decreases() {
    let mut last = time_ms(0);
    for t in [1u64, 2, 3, 999, 1000, 1001, 50_000, 1_000_000] {
        let now = time_ms(t);
        assert!(now >= last);
        last = now;
    }
}

#[test]
fn sleep_registers_deadline() {
    let mut sleepers: Vec<SleepEntry> = Vec::new();
    let s = sleep(&mut sleepers, 7, 1000, 500);
    assert_eq!(s.wake_at_ms, 1500);
    assert_eq!(sleepers.len(), 1);
    assert_eq!(sleepers[0].id, 7);
    assert_eq!(sleepers[0].wake_at_ms, 1500);
}

#[test]
fn sleep_poll_tracks_clock() {
    let s = Sleep { wake_at_ms: 1500 };
    assert!(!s.poll(1000));
    assert!(!s.poll(1499));
    // 1501 ticks amount to 1500 ms (the tick is slightly short).
    assert!(s.poll(1501));
    assert!(s.poll(4000));
}

#[test]
fn wake_sleepers_partitions_by_deadline() {
    let mut sleepers = vec![
        SleepEntry { id: 1, wake_at_ms: 100 },
        SleepEntry { id: 2, wake_at_ms: 5000 },
        SleepEntry { id: 3, wake_at_ms: 200 },
        SleepEntry { id: 4, wake_at_ms: 250 },
    ];
    let woken = wake_sleepers(&mut sleepers, 201);
    assert_eq!(woken, vec![1, 3]);
    assert_eq!(sleepers.len(), 2);
    assert_eq!(sleepers[0].id, 2);
    assert_eq!(sleepers[1].id, 4);
    // The remaining sleeper with the nearer deadline fires next.
    let woken = wake_sleepers(&mut sleepers, 300);
    assert_eq!(woken, vec![4]);
    assert_eq!(sleepers.len(), 1);
}

#[test]
fn sleep_500_resolves_no_earlier() {
    // `sleep 500` at tick 1000: the deadline is 500 ms after the current
    // reading, and no tick below it wakes the sleeper.
    let mut sleepers: Vec<SleepEntry> = Vec::new();
    let s = sleep(&mut sleepers, 1, 1000, 500);
    for t in [1000u64, 1100, 1200, 1300, 1400, 1499] {
        assert!(!s.poll(t), "woke {} ms early", s.wake_at_ms as i64 - time_ms(t));
        assert!(wake_sleepers(&mut sleepers.clone(), t).is_empty());
    }
    assert!(s.poll(1500));
    assert_eq!(wake_sleepers(&mut sleepers, 1500), vec![1]);
}

#[test]
fn elapsed_between_readings() {
    assert_eq!(kernel_core::time::elapsed_ms(1000, 1000), 0);
    assert_eq!(kernel_core::time::elapsed_ms(1000, 1500), 500);
    assert_eq!(kernel_core::time::elapsed_ms(0, 3_600_000), 3_599_452);
}

#[test]
fn pit_programming_bytes() {
    // Channel 0, lobyte+hibyte, square wave; divider 1193 split little
    // endian.
    let (cmd, lo, hi) = kernel_core::time::pit_program_bytes(kernel_core::time::PIT_DIVIDER, 0);
    assert_eq!(cmd, 0x36);
    assert_eq!(lo, 0xA9);
    assert_eq!(hi, 0x04);
    let (cmd, _, _) = kernel_core::time::pit_program_bytes(1193, 2);
    assert_eq!(cmd, 0xB6);
}

#[test]
fn yield_completes_on_second_poll() {
    let mut y = yield_now();
    assert!(!y.poll());
    assert!(y.poll());
    assert!(y.poll());
}
