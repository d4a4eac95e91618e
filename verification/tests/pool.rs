use video_sampler::pool::Dispatcher;
use video_sampler::task::Task;

fn numbered_task(ref_idx: u32) -> Task {
    Task {
        prefix: String::from("batch"),
        height: 360,
        samples: 5,
        target: String::from("/tmp/out"),
        index: ref_idx + 1,
        source: format!("/tmp/in/{}.mp4", ref_idx),
        ref_idx,
    }
}

#[test]
fn eight_workers_twenty_tasks() {
    // With eight workers and twenty queued tasks, at most eight run
    // concurrently; the other twelve wait in FIFO order.
    let mut pool = Dispatcher::new(8);
    for i in 0..20 {
        pool.enqueue(numbered_task(i));
    }

    let mut started = Vec::new();
    while let Some(task) = pool.try_dispatch() {
        started.push(task.ref_idx);
    }
    assert_eq!(started, (0..8).collect::<Vec<u32>>());
    assert_eq!(pool.running, 8);
    assert_eq!(pool.pending.len(), 12);
    assert!(pool.try_dispatch().is_none());

    // A worker frees up: exactly the ninth task of the batch starts.
    pool.complete();
    let next = pool.try_dispatch().expect("an idle worker takes the front task");
    assert_eq!(next.ref_idx, 8);
    assert_eq!(pool.running, 8);
    assert_eq!(pool.pending.len(), 11);
}

#[test]
fn idle_pool_with_empty_queue_dispatches_nothing() {
    let mut pool = Dispatcher::new(2);
    assert!(pool.try_dispatch().is_none());
    assert_eq!(pool.running, 0);
}

#[test]
fn completion_makes_room() {
    let mut pool = Dispatcher::new(1);
    pool.enqueue(numbered_task(0));
    pool.enqueue(numbered_task(1));
    assert_eq!(pool.try_dispatch().unwrap().ref_idx, 0);
    assert!(pool.try_dispatch().is_none());
    pool.complete();
    assert_eq!(pool.try_dispatch().unwrap().ref_idx, 1);
    assert!(pool.pending.is_empty());
}
