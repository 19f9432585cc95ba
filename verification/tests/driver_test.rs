use apib::collector::Collector;
use apib::driver::{Driver, Stage, Step};

const SECOND: u128 = 1_000_000_000;

#[test]
fn one_request_needs_no_run() {
    let mut collector = Collector::new();
    let mut driver = Driver::new(true, 4, 30, 5, 5);
    assert_eq!(driver.stage(), Stage::Ready);
    assert_eq!(driver.start(&mut collector, 0), Step::SendOne);
    assert_eq!(driver.stage(), Stage::Done);
    assert!(!collector.warming_up());
    assert!(!collector.stopped());
}

#[test]
fn run_without_warm_up_is_measured_from_its_start() {
    let mut collector = Collector::new();
    let mut driver = Driver::new(false, 2, 30, 0, 5);
    assert_eq!(
        driver.start(&mut collector, 100),
        Step::Launch {
            workers: 2,
            print_interval: 5 * SECOND,
            total_duration: 30 * SECOND,
            sleep: 30 * SECOND,
        }
    );
    assert_eq!(driver.stage(), Stage::Measuring);
    assert!(!collector.warming_up());
    assert!(Driver::ticking(&collector));
    assert_eq!(driver.wake(&mut collector, 100 + 30 * SECOND), Step::Await);
    assert_eq!(driver.stage(), Stage::Stopping);
    assert_eq!(driver.running(), 2);
    assert!(collector.stopped());
    assert!(!Driver::ticking(&collector));
    assert_eq!(driver.join(), Step::Await);
    assert_eq!(driver.running(), 1);
    assert_eq!(
        driver.join(),
        Step::Report {
            start: 100,
            end: 100 + 30 * SECOND
        }
    );
    assert_eq!(driver.stage(), Stage::Done);
}

#[test]
fn warm_up_is_left_out_of_the_measured_time() {
    let mut collector = Collector::new();
    let mut driver = Driver::new(false, 4, 1, 1, 5);
    assert_eq!(
        driver.start(&mut collector, 7),
        Step::Launch {
            workers: 4,
            print_interval: 5 * SECOND,
            total_duration: 2 * SECOND,
            sleep: SECOND,
        }
    );
    assert_eq!(driver.stage(), Stage::WarmingUp);
    assert!(collector.warming_up());
    assert_eq!(
        driver.wake(&mut collector, 7 + SECOND + 11),
        Step::Sleep { duration: SECOND }
    );
    assert_eq!(driver.stage(), Stage::Measuring);
    assert!(!collector.warming_up());
    assert!(!collector.stopped());
    assert_eq!(driver.wake(&mut collector, 7 + 2 * SECOND + 13), Step::Await);
    assert!(collector.stopped());
    for _ in 0..3 {
        assert_eq!(driver.join(), Step::Await);
        assert_eq!(driver.stage(), Stage::Stopping);
    }
    let report = driver.join();
    assert_eq!(
        report,
        Step::Report {
            start: 7 + SECOND + 11,
            end: 7 + 2 * SECOND + 13
        }
    );
    match report {
        Step::Report { start, end } => assert_eq!(end - start, SECOND + 2),
        other => panic!("unexpected step {:?}", other),
    }
}

#[test]
fn run_without_workers_reports_at_once() {
    let mut collector = Collector::new();
    let mut driver = Driver::new(false, 0, 2, 0, 1);
    assert_eq!(
        driver.start(&mut collector, 0),
        Step::Launch {
            workers: 0,
            print_interval: SECOND,
            total_duration: 2 * SECOND,
            sleep: 2 * SECOND,
        }
    );
    assert_eq!(
        driver.wake(&mut collector, 2 * SECOND),
        Step::Report {
            start: 0,
            end: 2 * SECOND
        }
    );
    assert_eq!(driver.stage(), Stage::Done);
    assert!(collector.stopped());
}

#[test]
fn longest_run_fits() {
    let mut collector = Collector::new();
    let mut driver = Driver::new(false, u16::MAX, u16::MAX, u16::MAX, u16::MAX);
    assert_eq!(
        driver.start(&mut collector, u128::MAX),
        Step::Launch {
            workers: u16::MAX,
            print_interval: 65_535 * SECOND,
            total_duration: 131_070 * SECOND,
            sleep: 65_535 * SECOND,
        }
    );
}
