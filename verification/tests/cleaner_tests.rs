use sweepwatch::cleaner::{plan_sweep, sweep_decision, SweepDecision};
use sweepwatch::config::Config;
use sweepwatch::record::FileRecord;

fn cfg_png(threshold: u64) -> Config {
    Config::new(vec!["png".to_string()], threshold)
}

fn rec(name: &str, modified: u64) -> FileRecord {
    let path = format!("/watched/{}", name);
    FileRecord::new(name.to_string(), path, modified, modified, 10)
}

#[test]
fn expired_whitelisted_file_is_deleted() {
    let cfg = cfg_png(10);
    let r = rec("shot1.png", 100);
    assert_eq!(sweep_decision(&r, 111, &cfg), SweepDecision::Delete);
}

#[test]
fn file_exactly_at_threshold_is_retained() {
    let cfg = cfg_png(10);
    let r = rec("shot1.png", 100);
    assert_eq!(sweep_decision(&r, 110, &cfg), SweepDecision::Retain);
}

#[test]
fn young_whitelisted_file_is_retained() {
    let cfg = cfg_png(10);
    let r = rec("shot1.png", 100);
    assert_eq!(sweep_decision(&r, 103, &cfg), SweepDecision::Retain);
}

#[test]
fn old_non_whitelisted_file_is_retained() {
    let cfg = cfg_png(10);
    let r = rec("note.txt", 100);
    assert_eq!(sweep_decision(&r, 1000, &cfg), SweepDecision::Retain);
}

#[test]
fn future_modification_time_is_clock_skew() {
    let cfg = cfg_png(10);
    let r = rec("shot1.png", 200);
    assert_eq!(sweep_decision(&r, 150, &cfg), SweepDecision::ClockSkew);
}

#[test]
fn plan_picks_exactly_the_expired_whitelisted_files() {
    let cfg = cfg_png(10);
    let records = vec![
        rec("old.png", 100),   // elapsed 50: planned
        rec("old.txt", 100),   // wrong type: retained
        rec("new.png", 145),   // elapsed 5: retained
        rec("older.png", 90),  // elapsed 60: planned
        rec("edge.png", 140),  // elapsed exactly 10: retained
    ];
    let plan = plan_sweep(&records, 150, &cfg);
    assert_eq!(plan, vec![0, 3]);
}

#[test]
fn second_sweep_plans_nothing_more() {
    let cfg = cfg_png(10);
    let records = vec![rec("old.png", 100), rec("new.png", 145), rec("note.txt", 1)];
    let now = 150;
    let plan = plan_sweep(&records, now, &cfg);
    assert_eq!(plan, vec![0]);
    // With no filesystem changes, the next listing holds the retained
    // records only; sweeping them again at the same time plans nothing.
    let mut remaining = records;
    for &i in plan.iter().rev() {
        remaining.remove(i);
    }
    let second = plan_sweep(&remaining, now, &cfg);
    assert!(second.is_empty());
}

#[test]
fn extensionless_whole_name_can_be_whitelisted() {
    // An extensionless file reports its whole name as its type, so the
    // whole name on the whitelist makes it eligible.
    let cfg = Config::new(vec!["Makefile".to_string()], 10);
    let r = rec("Makefile", 100);
    assert_eq!(sweep_decision(&r, 150, &cfg), SweepDecision::Delete);
}

#[test]
fn scenario_retain_then_expire() {
    // shot1.png modified at 100; threshold 10s; whitelist {png}.
    let cfg = cfg_png(10);
    let records = vec![rec("shot1.png", 100)];
    // 3 seconds elapsed: retained.
    let plan_young = plan_sweep(&records, 103, &cfg);
    assert!(plan_young.is_empty());
    // 11 seconds elapsed: deleted.
    let plan_old = plan_sweep(&records, 111, &cfg);
    assert_eq!(plan_old, vec![0]);
    // The following listing no longer contains it, and the next sweep
    // plans nothing.
    let mut remaining = records;
    for &i in plan_old.iter().rev() {
        remaining.remove(i);
    }
    assert!(remaining.is_empty());
    let next = plan_sweep(&remaining, 111, &cfg);
    assert!(next.is_empty());
}

#[test]
fn cleaner_never_touches_non_whitelisted_types() {
    // note.txt with whitelist {png}: never planned at any age.
    let cfg = cfg_png(10);
    let records = vec![rec("note.txt", 0)];
    for now in [0u64, 5, 10, 11, 1000, u64::MAX] {
        let plan = plan_sweep(&records, now, &cfg);
        assert!(plan.is_empty());
    }
}
