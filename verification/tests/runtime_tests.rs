use msvisor::console::{print, Stdout};
use msvisor::io::{BytesReader, Read};
use msvisor::resource::ResourceTable;
use msvisor::runtime::{IsolationRuntime, IsolationStatus, MetricOpt};

#[test]
fn handle_stability() {
    let mut t: ResourceTable<u64> = ResourceTable::new();
    let h0 = t.allocate(10);
    let h1 = t.allocate(20);
    assert_eq!(h0, 0);
    assert_eq!(h1, 1);
    assert_eq!(t.close(h0), Some(10));
    // any further operation on a closed handle fails with "not found"
    assert!(t.get(h0).is_none());
    assert!(t.close(h0).is_none());
    assert!(t.replace(h0, 30).is_none());
    // handles are strictly increasing and never reused
    let h2 = t.allocate(40);
    assert_eq!(h2, 2);
    assert!(t.get(h0).is_none());
    assert_eq!(t.get(h1), Some(&20));
    assert_eq!(t.replace(h1, 25), Some(20));
    assert_eq!(t.get(h1), Some(&25));
}

#[test]
fn two_isolations_report() {
    let mut rt = IsolationRuntime::new();
    let a = rt.add_isolation(0, 0, 0, 4096);
    let b = rt.add_isolation(0, 0, 4096, 8192);
    assert_eq!(a, 0);
    assert_eq!(b, 1);
    let results = vec![Ok(()), Err(String::from("entry point returned an error"))];
    let report = rt.finish_runs(&results, &MetricOpt::All);
    assert_eq!(report.len(), 2);
    // A's metrics are emitted, and the failure is logged against B's id
    assert_eq!(report[0].id, a);
    assert!(report[0].error.is_none());
    assert!(report[0].emit_metrics);
    assert_eq!(report[1].id, b);
    assert_eq!(
        report[1].error.as_deref(),
        Some("entry point returned an error")
    );
    assert!(matches!(
        rt.isolation_at(0).unwrap().status,
        IsolationStatus::Completed
    ));
    assert!(matches!(
        rt.isolation_at(1).unwrap().status,
        IsolationStatus::Failed
    ));
}

#[test]
fn failing_isolation_leaves_others_alone() {
    let mut rt = IsolationRuntime::new();
    for k in 0..3usize {
        rt.add_isolation(0, 0, k * 4096, (k + 1) * 4096);
    }
    rt.mark_all_preloaded();
    for idx in 0..3usize {
        rt.mark_running(idx);
        assert!(matches!(
            rt.isolation_at(idx).unwrap().status,
            IsolationStatus::Running
        ));
    }
    rt.record_metric(0);
    rt.record_metric(0);
    // isolation 1 fails deterministically; results arrive out of order, the
    // report still follows construction order
    let results = vec![Ok(()), Err(String::from("deterministic failure")), Ok(())];
    let report = rt.finish_runs(&results, &MetricOpt::Mem);
    assert_eq!(report.len(), 3);
    for (i, entry) in report.iter().enumerate() {
        assert_eq!(entry.id, i as u64);
        assert!(entry.emit_metrics);
    }
    assert!(report[0].error.is_none());
    assert!(report[1].error.is_some());
    assert!(report[2].error.is_none());
    assert_eq!(report[0].metric_events, 2);
    assert!(matches!(
        rt.isolation_at(0).unwrap().status,
        IsolationStatus::Completed
    ));
    assert!(matches!(
        rt.isolation_at(1).unwrap().status,
        IsolationStatus::Failed
    ));
    assert!(matches!(
        rt.isolation_at(2).unwrap().status,
        IsolationStatus::Completed
    ));
}

#[test]
fn metric_modes() {
    assert_eq!(MetricOpt::Off.name(), "none");
    assert_eq!(MetricOpt::All.name(), "all");
    assert_eq!(MetricOpt::Mem.name(), "mem");
    assert!(!MetricOpt::Off.enables_metrics());
    assert!(MetricOpt::All.enables_metrics());
    assert!(MetricOpt::Mem.enables_metrics());
}

#[test]
fn find_isolation_by_id() {
    let mut rt = IsolationRuntime::new();
    let a = rt.add_isolation(1, 2, 0, 4096);
    assert_eq!(rt.find_isolation(a), Some(0));
    assert_eq!(rt.find_isolation(99), None);
    let isol = rt.isolation_at(0).unwrap();
    assert_eq!(isol.context.isol_id, a);
    assert_eq!(isol.context.find_handler, 1);
    assert_eq!(isol.context.panic_handler, 2);
    assert_eq!(isol.context.heap_range, (0, 4096));
}

#[test]
fn print_appends_to_stdout() {
    let mut out = Stdout::new();
    print(&mut out, "Hello, world! id: ");
    print(&mut out, "0\n");
    assert_eq!(out.contents(), "Hello, world! id: 0\n");
}

#[test]
fn read_to_end_collects_everything() {
    let data: Vec<u8> = (0..5000u32).map(|i| (i % 251) as u8).collect();
    let mut reader = BytesReader::new(data.clone());
    let mut buf = Vec::new();
    let n = reader.read_to_end(&mut buf).expect("File::read failed.");
    assert_eq!(n, 5000);
    assert_eq!(buf, data);
}

#[test]
fn read_to_string_decodes_utf8() {
    let mut reader = BytesReader::new(b"grep the logs".to_vec());
    let mut buf = String::new();
    let n = reader.read_to_string(&mut buf).expect("read failed");
    assert_eq!(buf, "grep the logs");
    assert_eq!(n, 13);
}
