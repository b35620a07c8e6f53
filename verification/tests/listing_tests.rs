use sweepwatch::cleaner::plan_sweep;
use sweepwatch::config::Config;
use sweepwatch::listing::{build_listing, EntryMeta, RawEntry};

fn entry(name: &str, is_dir: bool, meta: Option<EntryMeta>) -> RawEntry {
    RawEntry {
        name: name.to_string(),
        path: format!("/watched/{}", name),
        is_dir,
        meta,
    }
}

fn meta(modified: u64) -> Option<EntryMeta> {
    Some(EntryMeta {
        created: modified,
        modified,
        size: 10,
    })
}

#[test]
fn listing_keeps_only_readable_files_off_the_ignore_list() {
    let cfg = Config::new(vec!["png".to_string()], 10);
    let entries = vec![
        entry("a.png", false, meta(100)),
        entry("subdir", true, meta(100)),
        entry(".DS_Store", false, meta(100)),
        entry(".gitignore", false, meta(100)),
        entry("vanished.png", false, None),
        entry("b.txt", false, meta(100)),
    ];
    let (records, skipped) = build_listing(entries, &cfg);
    let names: Vec<&str> = records.iter().map(|r| r.name.as_str()).collect();
    assert_eq!(names, vec!["a.png", "b.txt"]);
    assert_eq!(skipped, 1);
}

#[test]
fn listing_preserves_metadata_and_derives_type() {
    let cfg = Config::new(vec![], 10);
    let entries = vec![entry("archive.tar.gz", false, meta(55))];
    let (records, skipped) = build_listing(entries, &cfg);
    assert_eq!(records.len(), 1);
    assert_eq!(records[0].name, "archive.tar.gz");
    assert_eq!(records[0].path, "/watched/archive.tar.gz");
    assert_eq!(records[0].created, 55);
    assert_eq!(records[0].modified, 55);
    assert_eq!(records[0].size, 10);
    assert_eq!(records[0].file_type, "gz");
    assert_eq!(skipped, 0);
}

#[test]
fn ignored_files_never_listed_never_deleted() {
    // .DS_Store and .gitignore are excluded whatever their age or type,
    // so no sweep over a listing can delete them.
    let cfg = Config::new(
        vec!["DS_Store".to_string(), "gitignore".to_string()],
        0,
    );
    let entries = vec![
        entry(".DS_Store", false, meta(0)),
        entry(".gitignore", false, meta(0)),
        entry("keep.png", false, meta(0)),
    ];
    let (records, _) = build_listing(entries, &cfg);
    assert!(records.iter().all(|r| r.name != ".DS_Store"));
    assert!(records.iter().all(|r| r.name != ".gitignore"));
    let plan = plan_sweep(&records, u64::MAX, &cfg);
    for &i in plan.iter() {
        assert_ne!(records[i].name, ".DS_Store");
        assert_ne!(records[i].name, ".gitignore");
    }
}

#[test]
fn default_ignore_list() {
    let cfg = Config::new(vec!["png".to_string()], 10);
    assert_eq!(cfg.ignored, vec![".DS_Store", ".gitignore"]);
    assert_eq!(cfg.threshold_secs, 10);
    assert_eq!(cfg.whitelist, vec!["png"]);
}

#[test]
fn empty_directory_lists_nothing() {
    let cfg = Config::new(vec![], 10);
    let (records, skipped) = build_listing(Vec::new(), &cfg);
    assert!(records.is_empty());
    assert_eq!(skipped, 0);
}
