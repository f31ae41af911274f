use acadcheck::checker::{Error, MonitorType};
use acadcheck::supervisor::{
    collect, out_file, test_result, timeout_limit, write_decimal, ChildReport,
};
use std::collections::BTreeMap;
use std::time::Duration;

#[test]
fn decimals() {
    assert_eq!(write_decimal(0), "0");
    assert_eq!(write_decimal(7), "7");
    assert_eq!(write_decimal(10), "10");
    assert_eq!(write_decimal(1203), "1203");
    assert_eq!(write_decimal(usize::MAX), usize::MAX.to_string());
}

#[test]
fn output_files_are_named_by_the_test() {
    assert_eq!(out_file("/binary/tests/out", 1), "/binary/tests/out/1.out");
    assert_eq!(out_file("out", 120), "out/120.out");
    assert_eq!(out_file("", 0), "/0.out");
}

#[test]
fn the_last_timeout_counts() {
    let five = Duration::from_secs(5);
    let two = Duration::from_millis(2500);
    assert_eq!(timeout_limit(&vec![]), None);
    assert_eq!(timeout_limit(&vec![MonitorType::TimeFootprint]), None);
    assert_eq!(timeout_limit(&vec![MonitorType::Timeout { limit: five }]), Some(five));
    assert_eq!(
        timeout_limit(&vec![
            MonitorType::Timeout { limit: five },
            MonitorType::TimeFootprint,
            MonitorType::Timeout { limit: two },
            MonitorType::TimeFootprint,
        ]),
        Some(two)
    );
}

#[test]
fn a_test_that_ends_well_gives_its_output() {
    let report = ChildReport::Exited { success: true, status: "exit status: 0".into() };
    assert_eq!(test_result(&report, "out/1.out".into()), Ok("out/1.out".to_string()));
}

#[test]
fn a_test_that_ends_badly_gives_its_status() {
    let report = ChildReport::Exited { success: false, status: "exit status: 3".into() };
    assert_eq!(
        test_result(&report, "out/1.out".into()),
        Err(Error::TestError("Exit status: exit status: 3".into()))
    );
}

#[test]
fn a_test_that_takes_too_long_says_so() {
    let result = test_result(&ChildReport::TimedOut, "out/1.out".into());
    assert_eq!(result, Err(Error::TestError("Time exceeded!".into())));
    assert!(result.unwrap_err().to_string().contains("Time exceeded"));
}

#[test]
fn a_test_that_could_not_run_gives_the_reason() {
    assert_eq!(
        test_result(&ChildReport::NotStarted("No such file or directory".into()), "o".into()),
        Err(Error::TestError("No such file or directory".into()))
    );
    assert_eq!(
        test_result(&ChildReport::WaitFailed("interrupted".into()), "o".into()),
        Err(Error::TestError("interrupted".into()))
    );
}

fn reports(second: ChildReport) -> BTreeMap<usize, ChildReport> {
    let mut reports = BTreeMap::new();
    reports.insert(1, ChildReport::Exited { success: true, status: "exit status: 0".into() });
    reports.insert(2, second);
    reports.insert(3, ChildReport::Exited { success: false, status: "signal: 9".into() });
    reports
}

#[test]
fn a_slow_test_does_not_touch_the_others() {
    let slow = collect("out", &reports(ChildReport::TimedOut));
    let quick = collect(
        "out",
        &reports(ChildReport::Exited { success: true, status: "exit status: 0".into() }),
    );
    assert_eq!(slow.keys().copied().collect::<Vec<_>>(), vec![1, 2, 3]);
    assert_eq!(slow[&2], Err(Error::TestError("Time exceeded!".into())));
    assert_eq!(quick[&2], Ok("out/2.out".to_string()));
    assert_eq!(slow[&1], Ok("out/1.out".to_string()));
    assert_eq!(slow[&1], quick[&1]);
    assert_eq!(slow[&3], Err(Error::TestError("Exit status: signal: 9".into())));
    assert_eq!(slow[&3], quick[&3]);
}

#[test]
fn no_reports_no_results() {
    assert!(collect("out", &BTreeMap::new()).is_empty());
}
