use kernel_core::executor::Executor;
use kernel_core::executor::TaskSpawner;
use kernel_core::executor::spawn_task;
use kernel_core::time::yield_now;

#[test]
fn queue_length_tracks_scheduling() {
    let mut ex = Executor::new();
    assert_eq!(ex.queue_len(), 0);
    ex.spawn(1);
    ex.spawn(2);
    assert_eq!(ex.queue_len(), 2);
    ex.next_ready();
    assert_eq!(ex.queue_len(), 1);
}

#[test]
fn spawn_then_run_in_order() {
    let mut ex = Executor::new();
    ex.spawn(10);
    ex.spawn(11);
    ex.spawn(12);
    assert!(!ex.idle());
    assert_eq!(ex.next_ready(), Some(10));
    assert_eq!(ex.next_ready(), Some(11));
    assert_eq!(ex.next_ready(), Some(12));
    assert_eq!(ex.next_ready(), None);
    assert!(ex.idle());
}

#[test]
fn completed_tasks_are_skipped() {
    let mut ex = Executor::new();
    ex.spawn(1);
    ex.spawn(2);
    ex.complete(1);
    // 1 is still queued but no longer live; the scheduler discards it.
    assert_eq!(ex.next_ready(), Some(2));
    assert_eq!(ex.next_ready(), None);
}

#[test]
fn woken_task_runs_again() {
    let mut ex = Executor::new();
    ex.spawn(5);
    assert_eq!(ex.next_ready(), Some(5));
    assert!(ex.idle());
    ex.wake(5);
    assert!(!ex.idle());
    assert_eq!(ex.next_ready(), Some(5));
}

#[test]
fn spawner_hands_tasks_to_the_executor() {
    let mut ex = Executor::new();
    let mut spawner = TaskSpawner::new();
    spawn_task(&mut spawner, 100);
    spawn_task(&mut spawner, 101);
    assert_eq!(spawner.pending.len(), 2);
    ex.add_incoming_tasks(&mut spawner);
    assert_eq!(spawner.pending.len(), 0);
    assert_eq!(ex.next_ready(), Some(100));
    assert_eq!(ex.next_ready(), Some(101));
}

#[test]
fn yielding_tasks_run_fairly() {
    // N ready tasks that each yield once: every task runs exactly once
    // before any runs a second time.
    let n: u64 = 8;
    let mut ex = Executor::new();
    for id in 0..n {
        ex.spawn(id);
    }
    let mut yields = std::collections::HashMap::new();
    let mut order: Vec<u64> = Vec::new();
    for _ in 0..n {
        let id = ex.next_ready().unwrap();
        order.push(id);
        // Polling the task drives its yield future, which stays pending
        // once and wakes itself: the waker re-queues the id.
        let y = yields.entry(id).or_insert_with(yield_now);
        if !y.poll() {
            ex.wake(id);
        }
    }
    let mut sorted = order.clone();
    sorted.sort();
    sorted.dedup();
    assert_eq!(sorted.len() as u64, n, "a task repeated early: {order:?}");
    // The second round completes them all.
    for _ in 0..n {
        let id = ex.next_ready().unwrap();
        if yields.get_mut(&id).unwrap().poll() {
            ex.complete(id);
        }
    }
    assert_eq!(ex.next_ready(), None);
}
