use ipscannr::pool::{queue_capacity, worker_count, WorkPool};

#[test]
fn at_least_one_worker() {
    assert_eq!(worker_count(0), 1);
    assert_eq!(worker_count(1), 1);
    assert_eq!(worker_count(100), 100);
}

#[test]
fn queue_holds_twice_the_workers() {
    assert_eq!(queue_capacity(1), 2);
    assert_eq!(queue_capacity(50), 100);
    assert_eq!(queue_capacity(usize::MAX), usize::MAX);
    assert_eq!(queue_capacity(usize::MAX / 2), usize::MAX - 1);
    assert_eq!(queue_capacity(usize::MAX / 2 + 1), usize::MAX);
}

#[test]
fn single_worker_emits_one_result_per_address() {
    let jobs: Vec<u32> = (100..120).collect();
    let mut pool = WorkPool::new(jobs.clone(), 1);
    let mut emitted = Vec::new();
    while !pool.is_finished() {
        let job = pool.take_job().expect("a job is due");
        assert_eq!(pool.take_job(), None);
        assert_eq!(pool.in_flight(), 1);
        emitted.push(job);
        pool.job_done(true);
    }
    assert_eq!(emitted, jobs);
    assert_eq!(pool.delivered(), 20);
    assert_eq!(pool.in_flight(), 0);
    assert_eq!(pool.take_job(), None);
}

#[test]
fn never_more_jobs_out_than_workers() {
    let mut pool = WorkPool::new((0u16..10).collect(), 3);
    assert_eq!(pool.workers(), 3);
    assert_eq!(pool.take_job(), Some(0));
    assert_eq!(pool.take_job(), Some(1));
    assert_eq!(pool.take_job(), Some(2));
    assert_eq!(pool.take_job(), None);
    pool.job_done(true);
    assert_eq!(pool.take_job(), Some(3));
    assert_eq!(pool.take_job(), None);
    assert_eq!(pool.in_flight(), 3);
    assert!(!pool.is_finished());
}

#[test]
fn results_in_any_order_all_arrive() {
    let mut pool = WorkPool::new((0u16..7).collect(), 4);
    let mut out = Vec::new();
    let mut done = 0;
    loop {
        while let Some(job) = pool.take_job() {
            out.push(job);
        }
        if pool.is_finished() {
            break;
        }
        pool.job_done(true);
        done += 1;
    }
    assert_eq!(done, 7);
    out.sort();
    assert_eq!(out, vec![0, 1, 2, 3, 4, 5, 6]);
    assert_eq!(pool.delivered(), pool.total());
}

#[test]
fn empty_pool_is_finished_at_once() {
    let mut pool: WorkPool<u16> = WorkPool::new(Vec::new(), 0);
    assert_eq!(pool.workers(), 1);
    assert!(pool.is_finished());
    assert_eq!(pool.take_job(), None);
    pool.job_done(true);
    assert_eq!(pool.delivered(), 0);
}

#[test]
fn lost_result_stops_the_pool() {
    let mut pool = WorkPool::new((0u16..10).collect(), 2);
    pool.take_job();
    pool.take_job();
    pool.job_done(false);
    assert_eq!(pool.take_job(), None);
    assert!(!pool.is_finished());
    pool.job_done(true);
    assert!(pool.is_finished());
    assert_eq!(pool.delivered(), 1);
}

#[test]
fn stop_lets_jobs_in_flight_end() {
    let mut pool = WorkPool::new((0u16..10).collect(), 2);
    pool.take_job();
    pool.stop();
    assert_eq!(pool.take_job(), None);
    assert!(!pool.is_finished());
    pool.job_done(true);
    assert!(pool.is_finished());
    assert_eq!(pool.delivered(), 1);
    assert_eq!(pool.total(), 10);
}
