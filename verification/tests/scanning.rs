use old_files::config::Config;
use old_files::fs_model::{FileMeta, FsEntry};
use old_files::mode::Mode;
use old_files::scan::{classify_file, crawl, select_timestamp, FileStatus};

const NS: u128 = 1_000_000_000;
const DAY_NS: u128 = 86_400 * NS;

/// A reference instant comfortably after the epoch.
const NOW: u128 = 1_700_000_000 * NS;

fn meta_all(ts: u128) -> FileMeta {
    FileMeta { accessed_ns: ts, modified_ns: ts, created_ns: ts }
}

fn file(name: &str, ts: u128) -> FsEntry {
    FsEntry::File { name: name.to_string(), meta: Some(meta_all(ts)) }
}

fn file_unreadable(name: &str) -> FsEntry {
    FsEntry::File { name: name.to_string(), meta: None }
}

fn dir(name: &str, entries: Vec<FsEntry>) -> FsEntry {
    FsEntry::Dir { name: name.to_string(), entries }
}

fn cfg(dirname: &str, mode: Mode, threshold_secs: u64) -> Config {
    Config { dirname: dirname.to_string(), mode, threshold_secs }
}

#[test]
fn old_file_is_reported_and_new_file_is_not() {
    // root/old.txt modified 400 days ago, root/new.txt 1 day ago, and an
    // empty subdirectory; threshold 365 days on the modified timestamp.
    let tree = vec![
        file("old.txt", NOW - 400 * DAY_NS),
        file("new.txt", NOW - DAY_NS),
        dir("sub", vec![]),
    ];
    let config = Config::new(&vec![
        "root".to_string(),
        "m".to_string(),
        "d365".to_string(),
    ])
    .unwrap();
    let report = crawl(&config, &tree, NOW);
    assert_eq!(report.matches, vec!["root/old.txt".to_string()]);
    assert!(report.unreadable.is_empty());
    assert!(!report.clock_skew);
}

#[test]
fn unreadable_metadata_is_diagnosed_and_the_scan_goes_on() {
    let tree = vec![
        file_unreadable("secret.bin"),
        file("old.txt", NOW - 400 * DAY_NS),
    ];
    let report = crawl(&cfg("root", Mode::Modified, 365 * 86_400), &tree, NOW);
    assert_eq!(report.unreadable, vec!["root/secret.bin".to_string()]);
    assert_eq!(report.matches, vec!["root/old.txt".to_string()]);
    assert!(!report.clock_skew);
}

#[test]
fn zero_threshold_reports_every_regular_file() {
    let tree = vec![
        file("a.txt", NOW - 1),
        dir("sub", vec![file("b.txt", NOW - 5), dir("deep", vec![file("c.txt", NOW - 2)])]),
        file("d.txt", NOW - 3 * DAY_NS),
    ];
    let report = crawl(&cfg("root", Mode::Modified, 0), &tree, NOW);
    assert_eq!(
        report.matches,
        vec![
            "root/a.txt".to_string(),
            "root/sub/b.txt".to_string(),
            "root/sub/deep/c.txt".to_string(),
            "root/d.txt".to_string(),
        ]
    );
    assert!(!report.clock_skew);
}

#[test]
fn age_equal_to_threshold_is_not_reported() {
    // Strict inequality: a file exactly one day old does not exceed a
    // one-day threshold; one nanosecond more does.
    let at_threshold = file("at.txt", NOW - DAY_NS);
    let just_over = file("over.txt", NOW - DAY_NS - 1);
    let tree = vec![at_threshold, just_over];
    let report = crawl(&cfg("root", Mode::Modified, 86_400), &tree, NOW);
    assert_eq!(report.matches, vec!["root/over.txt".to_string()]);
}

#[test]
fn scanning_twice_yields_the_same_report() {
    let tree = vec![
        file("old.txt", NOW - 400 * DAY_NS),
        dir("sub", vec![file("b.txt", NOW - 5), file_unreadable("c.txt")]),
        file("new.txt", NOW - DAY_NS),
    ];
    let config = cfg("root", Mode::Modified, 365 * 86_400);
    let first = crawl(&config, &tree, NOW);
    let second = crawl(&config, &tree, NOW);
    assert_eq!(first.matches, second.matches);
    assert_eq!(first.unreadable, second.unreadable);
    assert_eq!(first.clock_skew, second.clock_skew);
}

#[test]
fn directories_are_never_reported() {
    // Even with a zero threshold, only the files inside a subdirectory
    // are reported, never the subdirectory itself.
    let tree = vec![dir("sub", vec![file("a.txt", NOW - 1)])];
    let report = crawl(&cfg("root", Mode::Modified, 0), &tree, NOW);
    assert_eq!(report.matches, vec!["root/sub/a.txt".to_string()]);
}

#[test]
fn future_dated_file_aborts_the_scan() {
    let tree = vec![
        file("old.txt", NOW - 400 * DAY_NS),
        file("future.txt", NOW + 1),
        file("older.txt", NOW - 500 * DAY_NS),
    ];
    let report = crawl(&cfg("root", Mode::Modified, 86_400), &tree, NOW);
    assert!(report.clock_skew);
    // Everything discovered before the abort is kept; nothing after the
    // skewed file was visited.
    assert_eq!(report.matches, vec!["root/old.txt".to_string()]);
}

#[test]
fn the_configured_timestamp_kind_is_compared() {
    // Accessed long ago, modified recently: reported under Accessed,
    // passed over under Modified.
    let f = FsEntry::File {
        name: "f.txt".to_string(),
        meta: Some(FileMeta {
            accessed_ns: NOW - 400 * DAY_NS,
            modified_ns: NOW - DAY_NS,
            created_ns: NOW - DAY_NS,
        }),
    };
    let tree = vec![f];
    let by_access = crawl(&cfg("root", Mode::Accessed, 365 * 86_400), &tree, NOW);
    assert_eq!(by_access.matches, vec!["root/f.txt".to_string()]);
    let by_modified = crawl(&cfg("root", Mode::Modified, 365 * 86_400), &tree, NOW);
    assert!(by_modified.matches.is_empty());
}

#[test]
fn classify_file_follows_the_strict_threshold() {
    assert_eq!(classify_file(NOW, NOW - DAY_NS, 86_400), FileStatus::Fresh);
    assert_eq!(classify_file(NOW, NOW - DAY_NS - 1, 86_400), FileStatus::Stale);
    assert_eq!(classify_file(NOW, NOW + 1, 86_400), FileStatus::ClockSkew);
    assert_eq!(classify_file(NOW, NOW, 0), FileStatus::Fresh);
    assert_eq!(classify_file(NOW, NOW - 1, 0), FileStatus::Stale);
}

#[test]
fn select_timestamp_reads_the_configured_field() {
    let meta = FileMeta { accessed_ns: 1, modified_ns: 2, created_ns: 3 };
    assert_eq!(select_timestamp(&meta, Mode::Accessed), 1);
    assert_eq!(select_timestamp(&meta, Mode::Modified), 2);
    assert_eq!(select_timestamp(&meta, Mode::Created), 3);
}

#[test]
fn unlistable_directory_scans_as_empty() {
    // A directory whose listing could not be read is represented by an
    // empty listing: the scan of that subtree emits nothing and the rest
    // of the tree is still scanned.
    let tree = vec![dir("locked", vec![]), file("old.txt", NOW - 400 * DAY_NS)];
    let report = crawl(&cfg("root", Mode::Modified, 86_400), &tree, NOW);
    assert_eq!(report.matches, vec!["root/old.txt".to_string()]);
}
