use apib::collector::{
    get_avg_latency, get_latency, get_rate, get_throughput, Collector, LocalCollector, MEGABIT,
};
use apib::error::Error;
use std::time::{Duration, SystemTime, UNIX_EPOCH};

fn nanos(t: SystemTime) -> u128 {
    t.duration_since(UNIX_EPOCH)
        .expect("Error calculating duration")
        .as_nanos()
}

fn millis(nanoseconds: u128) -> f64 {
    Duration::from_nanos(nanoseconds as u64).as_secs_f64() * 1000.0
}

#[test]
fn test_zero() {
    let local = LocalCollector::new();
    let mut global = Collector::new();
    let start = SystemTime::now();
    global.collect(local);
    let results = global.get_results(nanos(start), nanos(SystemTime::now()));
    assert_eq!(results.successes, 0);
    assert_eq!(results.attempts, 0);
    assert_eq!(results.failures, 0);
}

#[test]
fn test_one_success() {
    let mut local = LocalCollector::new();
    let mut global = Collector::new();
    let start = SystemTime::now();
    let elapsed = Duration::from_millis(111);
    let end = start.checked_add(elapsed).expect("Error adding time");
    assert_eq!(global.success(&mut local, nanos(start), nanos(end)), false);
    global.collect(local);
    let results = global.get_results(nanos(start), nanos(SystemTime::now()));
    assert_eq!(results.successes, 1);
    assert_eq!(results.attempts, 1);
    assert_eq!(results.failures, 0);
    let elapsed_millis = elapsed.as_secs_f64() * 1000.0;
    assert_eq!(millis(results.latency_avg), elapsed_millis);
    assert_eq!(millis(results.latency_pct[0]), elapsed_millis);
    assert_eq!(millis(results.latency_pct[100]), elapsed_millis);
}

#[test]
fn test_percentages() {
    let mut local = LocalCollector::new();
    let mut global = Collector::new();
    let start = SystemTime::now();
    let elapsed = Duration::from_millis(111);
    let end = start.checked_add(elapsed).expect("Error adding time");
    assert_eq!(global.success(&mut local, nanos(start), nanos(end)), false);
    let elapsed2 = Duration::from_millis(222);
    let end2 = start.checked_add(elapsed2).expect("Error adding time");
    assert_eq!(global.success(&mut local, nanos(start), nanos(end2)), false);
    let elapsed3 = Duration::from_millis(33);
    let end3 = start.checked_add(elapsed3).expect("Error adding time");
    assert_eq!(global.success(&mut local, nanos(start), nanos(end3)), false);
    global.collect(local);
    let results = global.get_results(nanos(start), nanos(SystemTime::now()));
    assert_eq!(results.successes, 3);
    assert_eq!(results.attempts, 3);
    assert_eq!(results.failures, 0);
    assert_eq!(millis(results.latency_avg), 122.0);
    assert_eq!(millis(results.latency_pct[0]), 33.0);
    assert_eq!(millis(results.latency_pct[100]), 222.0);
}

#[test]
fn test_one_failure() {
    let mut local = LocalCollector::new();
    let mut global = Collector::new();
    let start = SystemTime::now();
    global.failure(&mut local, Error::IO("Help!".to_string()));
    global.collect(local);
    let results = global.get_results(nanos(start), nanos(SystemTime::now()));
    assert_eq!(results.successes, 0);
    assert_eq!(results.attempts, 1);
    assert_eq!(results.failures, 1);
}

#[test]
fn results_hold_exact_nanoseconds() {
    let mut local = LocalCollector::new();
    let mut global = Collector::new();
    global.success(&mut local, 1_000, 112_000);
    global.success(&mut local, 1_000, 223_000);
    global.success(&mut local, 1_000, 34_000);
    global.collect(local);
    let results = global.get_results(0, 2_000_000_000);
    assert_eq!(results.duration, 2_000_000_000);
    assert_eq!(results.latency_avg, 122_000);
    assert_eq!(results.latency_pct.len(), 101);
    assert_eq!(results.latency_pct[0], 33_000);
    assert_eq!(results.latency_pct[33], 33_000);
    assert_eq!(results.latency_pct[34], 111_000);
    assert_eq!(results.latency_pct[50], 111_000);
    assert_eq!(results.latency_pct[66], 111_000);
    assert_eq!(results.latency_pct[67], 222_000);
    assert_eq!(results.latency_pct[100], 222_000);
    // 3 successes in 2 seconds: 1.500 per second.
    assert_eq!(results.throughput, 1_500);
}

#[test]
fn percentiles_are_read_off_the_sorted_samples() {
    let mut local = LocalCollector::new();
    let mut global = Collector::new();
    // 200 samples, recorded from the largest down.
    for i in 0..200u128 {
        global.success(&mut local, 0, 200 - i);
    }
    global.collect(local);
    let results = global.get_results(0, 1);
    for p in 0..=100usize {
        // Sorted, the samples are 1..=200: index min(200 * p / 100, 199).
        let index = std::cmp::min(200 * p / 100, 199);
        assert_eq!(results.latency_pct[p], index as u128 + 1);
        assert!(results.latency_pct[0] <= results.latency_pct[p]);
        assert!(results.latency_pct[p] <= results.latency_pct[100]);
    }
    assert_eq!(results.latency_pct[0], 1);
    assert_eq!(results.latency_pct[100], 200);
    assert_eq!(results.latency_avg, (200 * 201 / 2) / 200);
}

#[test]
fn empty_run_has_zero_percentiles() {
    let mut global = Collector::new();
    let results = global.get_results(5, 5);
    assert_eq!(results.latency_pct.len(), 101);
    assert!(results.latency_pct.iter().all(|&l| l == 0));
    assert_eq!(results.latency_avg, 0);
    assert_eq!(results.throughput, 0);
    assert_eq!(results.send_rate, 0);
    assert_eq!(results.receive_rate, 0);
}

#[test]
fn zero_duration_divides_nothing() {
    let mut local = LocalCollector::new();
    let mut global = Collector::new();
    global.success(&mut local, 7, 9);
    global.collect(local);
    global.collect_connection(1_000, 2_000);
    let results = global.get_results(100, 100);
    assert_eq!(results.duration, 0);
    assert_eq!(results.successes, 1);
    assert_eq!(results.throughput, 0);
    assert_eq!(results.send_rate, 0);
    assert_eq!(results.receive_rate, 0);
    assert_eq!(results.bytes_sent, 1_000);
    assert_eq!(results.bytes_received, 2_000);
    assert_eq!(get_throughput(10, 0), 0);
    assert_eq!(get_rate(10, 0), 0);
}

#[test]
fn formulas_give_exact_values() {
    // 250 successes in half a second: 500.000 per second.
    assert_eq!(get_throughput(250, 500_000_000), 500_000);
    // 1 success in 3 seconds: 0.333 per second, rounded down.
    assert_eq!(get_throughput(1, 3_000_000_000), 333);
    // One MEGABIT of bytes in one second is 1.000.
    assert_eq!(MEGABIT, 1024 * 1024 * 10);
    assert_eq!(get_rate(MEGABIT, 1_000_000_000), 1_000);
    // Half of it in two seconds is 0.250.
    assert_eq!(get_rate(MEGABIT / 2, 2_000_000_000), 250);
    assert_eq!(get_avg_latency(4, 10), 2);
    assert_eq!(get_avg_latency(0, 10), 0);
    assert_eq!(get_latency(&[], 50), 0);
    assert_eq!(get_latency(&[5, 6, 7, 8], 0), 5);
    assert_eq!(get_latency(&[5, 6, 7, 8], 50), 7);
    assert_eq!(get_latency(&[5, 6, 7, 8], 99), 8);
    assert_eq!(get_latency(&[5, 6, 7, 8], 100), 8);
    assert_eq!(get_latency(&[5, 6, 7, 8], 1_000), 8);
}

#[test]
fn two_merges_add_up() {
    let mut global = Collector::new();
    let mut a = LocalCollector::new();
    let mut b = LocalCollector::new();
    let mut scratch = Collector::new();
    scratch.success(&mut a, 0, 10);
    Collector::connection_opened(&mut a);
    scratch.success(&mut a, 0, 30);
    scratch.failure(&mut a, Error::Http(500));
    scratch.success(&mut b, 0, 20);
    scratch.failure(&mut b, Error::Http(404));
    scratch.failure(&mut b, Error::IO("reset".to_string()));
    assert!(global.has_room_for(&a));
    global.collect(a);
    let first = global.get_results(0, 1);
    assert_eq!(
        (first.attempts, first.successes, first.failures, first.connections_opened),
        (3, 2, 1, 1)
    );
    global.collect(b);
    let both = global.get_results(0, 1);
    assert_eq!(
        (both.attempts, both.successes, both.failures, both.connections_opened),
        (6, 3, 3, 1)
    );
    assert_eq!(both.attempts, both.successes + both.failures);
    assert!(both.connections_opened <= both.attempts);
    assert_eq!(both.latency_avg, 20);
    assert_eq!(both.latency_pct[0], 10);
    assert_eq!(both.latency_pct[50], 20);
    assert_eq!(both.latency_pct[100], 30);
}

#[test]
fn warm_up_counts_in_the_interval_only() {
    let mut local = LocalCollector::new();
    let mut global = Collector::new();
    global.set_warming_up(true);
    assert!(global.warming_up());
    global.success(&mut local, 0, 999_999);
    global.failure(&mut local, Error::Http(503));
    let tick = global.write_tick(1_000_000_000, 0, 0, 2_000_000_000);
    assert!(tick.warming_up);
    assert_eq!(tick.throughput, 1_000);
    assert_eq!(tick.failures, 1);
    global.set_warming_up(false);
    global.success(&mut local, 0, 5);
    global.collect(local);
    let results = global.get_results(1_000_000_000, 2_000_000_000);
    assert_eq!(results.attempts, 1);
    assert_eq!(results.successes, 1);
    assert_eq!(results.failures, 0);
    assert_eq!(results.latency_pct[0], 5);
    assert_eq!(results.latency_pct[100], 5);
    assert_eq!(results.duration, 1_000_000_000);
}

#[test]
fn stop_is_told_to_every_later_call() {
    let mut local = LocalCollector::new();
    let mut global = Collector::new();
    assert!(!global.stopped());
    assert!(!global.success(&mut local, 0, 1));
    global.stop();
    assert!(global.stopped());
    assert!(global.success(&mut local, 0, 1));
    assert!(global.failure(&mut local, Error::Http(500)));
    global.stop();
    assert!(global.stopped());
}

#[test]
fn tick_takes_the_interval_and_the_error() {
    let mut local = LocalCollector::new();
    let mut global = Collector::new();
    for _ in 0..10 {
        global.success(&mut local, 0, 1);
    }
    global.failure(&mut local, Error::Http(404));
    global.failure(&mut local, Error::Http(500));
    let tick = global.write_tick(7_500_000_000, 0, 5_000_000_000, 30_000_000_000);
    assert_eq!(tick.elapsed_secs, 7);
    assert_eq!(tick.total_secs, 30);
    // 10 successes in 2.5 seconds.
    assert_eq!(tick.throughput, 4_000);
    assert!(!tick.warming_up);
    assert_eq!(tick.failures, 2);
    assert_eq!(tick.error, Some(Error::Http(500)));
    let next = global.write_tick(10_000_000_000, 0, 7_500_000_000, 30_000_000_000);
    assert_eq!(next.throughput, 0);
    assert_eq!(next.failures, 0);
    assert_eq!(next.error, None);
}

#[test]
fn bytes_of_connections_add_up() {
    let mut global = Collector::new();
    assert!(global.has_room_for_bytes(u64::MAX, u64::MAX));
    global.collect_connection(10, 20);
    global.collect_connection(1, 2);
    assert!(!global.has_room_for_bytes(u64::MAX, 0));
    assert!(global.has_room_for_bytes(u64::MAX - 11, u64::MAX - 22));
    let results = global.get_results(0, 1_000_000_000);
    assert_eq!(results.bytes_sent, 11);
    assert_eq!(results.bytes_received, 22);
}

#[test]
fn room_is_checked_before_counting() {
    let mut local = LocalCollector::new();
    let mut global = Collector::new();
    assert!(local.has_room(u128::MAX));
    global.success(&mut local, 0, 1);
    assert!(!local.has_room(u128::MAX));
    assert!(local.has_room(u128::MAX - 1));
}
