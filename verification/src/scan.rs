use vstd::prelude::*;
use vstd::string::StringExecFns;

use crate::config::Config;
use crate::fs_model::{FileMeta, FsEntry};
use crate::mode::Mode;

verus! {

/// Nanoseconds in one second.
pub const NANOS_PER_SEC: u64 = 1_000_000_000;

/// The timestamp of `meta` selected by `mode`, in nanoseconds since the
/// epoch.
pub open spec fn selected_ts(meta: FileMeta, mode: Mode) -> u128 {
    match mode {
        Mode::Accessed => meta.accessed_ns,
        Mode::Modified => meta.modified_ns,
        Mode::Created => meta.created_ns,
    }
}

/// The threshold in nanoseconds, as an unbounded integer.
pub open spec fn threshold_ns(threshold_secs: u64) -> int {
    threshold_secs * NANOS_PER_SEC
}

/// Whether a timestamp lies in the future of the reference instant
/// `now_ns`: the clock-skew condition that aborts a scan.
pub open spec fn is_skewed(now_ns: u128, ts_ns: u128) -> bool {
    ts_ns > now_ns
}

/// Whether a file with selected timestamp `ts_ns` is stale at `now_ns`:
/// its age strictly exceeds the threshold.  A future-dated file is never
/// stale; it is skewed.
pub open spec fn is_stale(now_ns: u128, ts_ns: u128, threshold_secs: u64) -> bool {
    ts_ns <= now_ns && now_ns - ts_ns > threshold_ns(threshold_secs)
}

/// The classification of one regular file whose metadata was readable.
#[derive(Clone, Copy, Debug, PartialEq, Eq)]
pub enum FileStatus {
    /// Age strictly exceeds the threshold: the file is reported.
    Stale,
    /// Age is at most the threshold: the file is passed over.
    Fresh,
    /// The timestamp is later than the reference instant: the whole scan
    /// aborts.
    ClockSkew,
}

/// What [`classify_file`] returns.
pub open spec fn classify_spec(now_ns: u128, ts_ns: u128, threshold_secs: u64) -> FileStatus {
    if is_skewed(now_ns, ts_ns) {
        FileStatus::ClockSkew
    } else if is_stale(now_ns, ts_ns, threshold_secs) {
        FileStatus::Stale
    } else {
        FileStatus::Fresh
    }
}

/// Classifies one file from its selected timestamp: skewed when the
/// timestamp is in the future, stale when its age strictly exceeds the
/// threshold, fresh otherwise.  The boundary case, age equal to the
/// threshold, is fresh.
pub fn classify_file(now_ns: u128, ts_ns: u128, threshold_secs: u64) -> (r: FileStatus)
    ensures
        r == classify_spec(now_ns, ts_ns, threshold_secs),
        r is Stale <==> is_stale(now_ns, ts_ns, threshold_secs),
        r is ClockSkew <==> is_skewed(now_ns, ts_ns),
{
    if ts_ns > now_ns {
        FileStatus::ClockSkew
    } else {
        let age: u128 = now_ns - ts_ns;
        let cutoff: u128 = (threshold_secs as u128) * (NANOS_PER_SEC as u128);
        if age > cutoff {
            FileStatus::Stale
        } else {
            FileStatus::Fresh
        }
    }
}

/// Reads the timestamp of `meta` that `mode` selects.
pub fn select_timestamp(meta: &FileMeta, mode: Mode) -> (r: u128)
    ensures
        r == selected_ts(*meta, mode),
{
    match mode {
        Mode::Accessed => meta.accessed_ns,
        Mode::Modified => meta.modified_ns,
        Mode::Created => meta.created_ns,
    }
}

/// The full path of an entry named `name` inside the directory `dir`.
pub open spec fn join_path(dir: Seq<char>, name: Seq<char>) -> Seq<char> {
    dir + "/"@ + name
}

/// Builds the full path of an entry named `name` inside the directory
/// `dir`.
pub fn join_path_exec(dir: &String, name: &String) -> (r: String)
    ensures
        r@ == join_path(dir@, name@),
{
    let mut r = dir.clone();
    r.append("/");
    r.append(name.as_str());
    r
}

/// Everything one scan emits, in discovery order: the paths of the stale
/// files, the paths of the files whose metadata was unreadable, and
/// whether the scan was aborted by a skewed timestamp.  When `clock_skew`
/// holds, the two sequences hold exactly what was emitted before the
/// abort.
#[verifier::ext_equal]
pub struct ScanModel {
    pub matches: Seq<Seq<char>>,
    pub unreadable: Seq<Seq<char>>,
    pub clock_skew: bool,
}

/// The outcome of a scan that emitted nothing and found no skew.
pub open spec fn empty_model() -> ScanModel {
    ScanModel { matches: seq![], unreadable: seq![], clock_skew: false }
}

/// The outcome of a scan that performed `a` and then, only if `a` did not
/// abort, `b`.
pub open spec fn model_concat(a: ScanModel, b: ScanModel) -> ScanModel {
    if a.clock_skew {
        a
    } else {
        ScanModel {
            matches: a.matches + b.matches,
            unreadable: a.unreadable + b.unreadable,
            clock_skew: b.clock_skew,
        }
    }
}

/// The outcome of scanning the single entry `e` of directory `dir`.
///
/// A file without readable metadata is emitted as unreadable; a file with
/// a future-dated selected timestamp aborts the scan; a stale file is
/// emitted as a match; a fresh file emits nothing.  A directory is never
/// itself classified: only its entries are scanned, under its own path.
pub open spec fn scan_entry(
    e: FsEntry,
    dir: Seq<char>,
    mode: Mode,
    threshold_secs: u64,
    now_ns: u128,
) -> ScanModel
    decreases e,
{
    match e {
        FsEntry::File { name, meta } => {
            let path = join_path(dir, name@);
            match meta {
                None => ScanModel { matches: seq![], unreadable: seq![path], clock_skew: false },
                Some(m) => {
                    let ts = selected_ts(m, mode);
                    if is_skewed(now_ns, ts) {
                        ScanModel { matches: seq![], unreadable: seq![], clock_skew: true }
                    } else if is_stale(now_ns, ts, threshold_secs) {
                        ScanModel { matches: seq![path], unreadable: seq![], clock_skew: false }
                    } else {
                        empty_model()
                    }
                },
            }
        },
        FsEntry::Dir { name, entries } => scan_entries(
            entries@,
            join_path(dir, name@),
            mode,
            threshold_secs,
            now_ns,
        ),
    }
}

/// The outcome of scanning the entries `s` of directory `dir` in order,
/// depth-first, stopping at the first skewed timestamp.
pub open spec fn scan_entries(
    s: Seq<FsEntry>,
    dir: Seq<char>,
    mode: Mode,
    threshold_secs: u64,
    now_ns: u128,
) -> ScanModel
    decreases s,
{
    if s.len() == 0 {
        empty_model()
    } else {
        model_concat(
            scan_entry(s[0], dir, mode, threshold_secs, now_ns),
            scan_entries(s.drop_first(), dir, mode, threshold_secs, now_ns),
        )
    }
}

/// The paths of the stale regular files that the single entry `e` of
/// directory `dir` contributes, in discovery order: the file's own path
/// when `e` is a file with readable metadata whose age strictly exceeds
/// the threshold, nothing for any other file, and the stale paths of the
/// whole subtree when `e` is a directory.  A directory never contributes
/// its own path.
pub open spec fn stale_paths_entry(
    e: FsEntry,
    dir: Seq<char>,
    mode: Mode,
    threshold_secs: u64,
    now_ns: u128,
) -> Seq<Seq<char>>
    decreases e,
{
    match e {
        FsEntry::File { name, meta } => match meta {
            Some(m) => if is_stale(now_ns, selected_ts(m, mode), threshold_secs) {
                seq![join_path(dir, name@)]
            } else {
                seq![]
            },
            None => seq![],
        },
        FsEntry::Dir { name, entries } => stale_paths(
            entries@,
            join_path(dir, name@),
            mode,
            threshold_secs,
            now_ns,
        ),
    }
}

/// The paths of all stale regular files reachable from the entries `s`
/// of directory `dir`, in discovery order.
pub open spec fn stale_paths(
    s: Seq<FsEntry>,
    dir: Seq<char>,
    mode: Mode,
    threshold_secs: u64,
    now_ns: u128,
) -> Seq<Seq<char>>
    decreases s,
{
    if s.len() == 0 {
        seq![]
    } else {
        stale_paths_entry(s[0], dir, mode, threshold_secs, now_ns) + stale_paths(
            s.drop_first(),
            dir,
            mode,
            threshold_secs,
            now_ns,
        )
    }
}

/// The paths of the files without readable metadata that the single
/// entry `e` of directory `dir` contributes, in discovery order.
pub open spec fn unreadable_paths_entry(e: FsEntry, dir: Seq<char>) -> Seq<Seq<char>>
    decreases e,
{
    match e {
        FsEntry::File { name, meta } => match meta {
            None => seq![join_path(dir, name@)],
            Some(_) => seq![],
        },
        FsEntry::Dir { name, entries } => unreadable_paths(entries@, join_path(dir, name@)),
    }
}

/// The paths of all files without readable metadata reachable from the
/// entries `s` of directory `dir`, in discovery order.
pub open spec fn unreadable_paths(s: Seq<FsEntry>, dir: Seq<char>) -> Seq<Seq<char>>
    decreases s,
{
    if s.len() == 0 {
        seq![]
    } else {
        unreadable_paths_entry(s[0], dir) + unreadable_paths(s.drop_first(), dir)
    }
}

/// A scan that emits nothing first changes nothing: `empty_model` is a
/// left identity of `model_concat`.
proof fn lemma_model_concat_empty_left(b: ScanModel)
    ensures
        model_concat(empty_model(), b) == b,
{
    assert(model_concat(empty_model(), b) =~= b);
}

/// A scan that emits nothing last changes nothing: `empty_model` is a
/// right identity of `model_concat`.
proof fn lemma_model_concat_empty_right(a: ScanModel)
    ensures
        model_concat(a, empty_model()) == a,
{
    assert(model_concat(a, empty_model()) =~= a);
}

/// Performing three scans in order groups either way.
proof fn lemma_model_concat_assoc(a: ScanModel, b: ScanModel, c: ScanModel)
    ensures
        model_concat(a, model_concat(b, c)) == model_concat(model_concat(a, b), c),
{
    assert(model_concat(a, model_concat(b, c)) =~= model_concat(model_concat(a, b), c));
}

/// Scanning a listing is the same as scanning its first `k` entries and
/// then, if no skew aborted it, the rest.
proof fn lemma_scan_entries_split(
    s: Seq<FsEntry>,
    k: int,
    dir: Seq<char>,
    mode: Mode,
    threshold_secs: u64,
    now_ns: u128,
)
    requires
        0 <= k <= s.len(),
    ensures
        scan_entries(s, dir, mode, threshold_secs, now_ns) == model_concat(
            scan_entries(s.subrange(0, k), dir, mode, threshold_secs, now_ns),
            scan_entries(s.subrange(k, s.len() as int), dir, mode, threshold_secs, now_ns),
        ),
    decreases k,
{
    if k == 0 {
        assert(s.subrange(0, 0) =~= Seq::<FsEntry>::empty());
        assert(s.subrange(0, s.len() as int) =~= s);
        lemma_model_concat_empty_left(scan_entries(s, dir, mode, threshold_secs, now_ns));
    } else {
        let df = s.drop_first();
        lemma_scan_entries_split(df, k - 1, dir, mode, threshold_secs, now_ns);
        assert(df.subrange(0, k - 1) =~= s.subrange(1, k));
        assert(df.subrange(k - 1, df.len() as int) =~= s.subrange(k, s.len() as int));
        assert(s.subrange(0, k).drop_first() =~= s.subrange(1, k));
        assert(s.subrange(0, k)[0] == s[0]);
        lemma_model_concat_assoc(
            scan_entry(s[0], dir, mode, threshold_secs, now_ns),
            scan_entries(s.subrange(1, k), dir, mode, threshold_secs, now_ns),
            scan_entries(s.subrange(k, s.len() as int), dir, mode, threshold_secs, now_ns),
        );
    }
}

/// Everything one scan emitted, in discovery order, together with whether
/// a skewed timestamp aborted it.  The executable counterpart of
/// [`ScanModel`].
#[derive(Debug)]
pub struct ScanReport {
    /// The full paths of the stale files, in discovery order.
    pub matches: Vec<String>,
    /// The full paths of the files whose metadata was unreadable.
    pub unreadable: Vec<String>,
    /// Whether the scan was aborted by a timestamp later than `now`.
    pub clock_skew: bool,
}

/// The outcome that a report describes.
pub open spec fn report_model(r: ScanReport) -> ScanModel {
    ScanModel {
        matches: r.matches.deep_view(),
        unreadable: r.unreadable.deep_view(),
        clock_skew: r.clock_skew,
    }
}

/// Scans the single entry `e` of the directory `config.dirname`.
fn crawl_entry(config: &Config, e: &FsEntry, now_ns: u128) -> (r: ScanReport)
    ensures
        report_model(r) == scan_entry(*e, config.dirname@, config.mode, config.threshold_secs, now_ns),
    decreases *e,
{
    match e {
        FsEntry::File { name, meta } => {
            let path = join_path_exec(&config.dirname, name);
            match meta {
                None => {
                    let mut unreadable: Vec<String> = Vec::new();
                    let ghost path_view = path@;
                    unreadable.push(path);
                    let matches: Vec<String> = Vec::new();
                    proof {
                        assert(matches.deep_view() =~= Seq::<Seq<char>>::empty());
                        assert(unreadable.deep_view() =~= seq![path_view]);
                    }
                    ScanReport { matches, unreadable, clock_skew: false }
                },
                Some(m) => {
                    let ts = select_timestamp(m, config.mode);
                    match classify_file(now_ns, ts, config.threshold_secs) {
                        FileStatus::ClockSkew => {
                            let matches: Vec<String> = Vec::new();
                            let unreadable: Vec<String> = Vec::new();
                            proof {
                                assert(matches.deep_view() =~= Seq::<Seq<char>>::empty());
                                assert(unreadable.deep_view() =~= Seq::<Seq<char>>::empty());
                            }
                            ScanReport { matches, unreadable, clock_skew: true }
                        },
                        FileStatus::Stale => {
                            let mut matches: Vec<String> = Vec::new();
                            let ghost path_view = path@;
                            matches.push(path);
                            let unreadable: Vec<String> = Vec::new();
                            proof {
                                assert(matches.deep_view() =~= seq![path_view]);
                                assert(unreadable.deep_view() =~= Seq::<Seq<char>>::empty());
                            }
                            ScanReport { matches, unreadable, clock_skew: false }
                        },
                        FileStatus::Fresh => {
                            let matches: Vec<String> = Vec::new();
                            let unreadable: Vec<String> = Vec::new();
                            proof {
                                assert(matches.deep_view() =~= Seq::<Seq<char>>::empty());
                                assert(unreadable.deep_view() =~= Seq::<Seq<char>>::empty());
                            }
                            ScanReport { matches, unreadable, clock_skew: false }
                        },
                    }
                },
            }
        },
        FsEntry::Dir { name, entries } => {
            let sub_dirname = join_path_exec(&config.dirname, name);
            let sub_config = Config {
                dirname: sub_dirname,
                mode: config.mode,
                threshold_secs: config.threshold_secs,
            };
            crawl(&sub_config, entries, now_ns)
        },
    }
}

/// Scans the entries of the directory `config.dirname`, depth-first and
/// in listing order, against the reference instant `now_ns`.
///
/// The report holds the full path of every stale file and of every file
/// whose metadata was unreadable, each in discovery order.  When a file's
/// selected timestamp lies after `now_ns`, the scan stops there: the
/// report carries everything emitted up to that point and `clock_skew`
/// is set.
pub fn crawl(config: &Config, entries: &Vec<FsEntry>, now_ns: u128) -> (r: ScanReport)
    ensures
        report_model(r) == scan_entries(
            entries@,
            config.dirname@,
            config.mode,
            config.threshold_secs,
            now_ns,
        ),
    decreases entries@,
{
    let ghost dir = config.dirname@;
    let ghost mode = config.mode;
    let ghost th = config.threshold_secs;
    let mut matches: Vec<String> = Vec::new();
    let mut unreadable: Vec<String> = Vec::new();
    proof {
        assert(matches.deep_view() =~= Seq::<Seq<char>>::empty());
        assert(entries@.subrange(0, 0) =~= Seq::<FsEntry>::empty());
    }
    let n = entries.len();
    let mut i: usize = 0;
    while i < n
        invariant
            0 <= i <= n,
            n == entries@.len(),
            config.dirname@ == dir,
            config.mode == mode,
            config.threshold_secs == th,
            !scan_entries(entries@.subrange(0, i as int), dir, mode, th, now_ns).clock_skew,
            matches.deep_view() == scan_entries(
                entries@.subrange(0, i as int),
                dir,
                mode,
                th,
                now_ns,
            ).matches,
            unreadable.deep_view() == scan_entries(
                entries@.subrange(0, i as int),
                dir,
                mode,
                th,
                now_ns,
            ).unreadable,
        decreases n - i,
    {
        proof {
            assert(decreases_to!(entries@ => entries@[i as int]));
        }
        let ghost pre = scan_entries(entries@.subrange(0, i as int), dir, mode, th, now_ns);
        let ghost matches_pre = matches.deep_view();
        let ghost unreadable_pre = unreadable.deep_view();
        let mut sub = crawl_entry(config, &entries[i], now_ns);
        let ghost sub_model = report_model(sub);
        let ghost sub_matches = sub.matches.deep_view();
        let ghost sub_unreadable = sub.unreadable.deep_view();
        matches.append(&mut sub.matches);
        unreadable.append(&mut sub.unreadable);
        proof {
            assert(matches.deep_view() =~= matches_pre + sub_matches);
            assert(unreadable.deep_view() =~= unreadable_pre + sub_unreadable);
            let step = entries@.subrange(0, i as int + 1);
            lemma_scan_entries_split(step, i as int, dir, mode, th, now_ns);
            assert(step.subrange(0, i as int) =~= entries@.subrange(0, i as int));
            let single = step.subrange(i as int, i as int + 1);
            assert(single.drop_first() =~= Seq::<FsEntry>::empty());
            assert(single[0] == entries@[i as int]);
            assert(scan_entries(single.drop_first(), dir, mode, th, now_ns) == empty_model());
            assert(scan_entries(single, dir, mode, th, now_ns) == model_concat(
                scan_entry(single[0], dir, mode, th, now_ns),
                scan_entries(single.drop_first(), dir, mode, th, now_ns),
            ));
            lemma_model_concat_empty_right(scan_entry(entries@[i as int], dir, mode, th, now_ns));
            assert(scan_entries(step, dir, mode, th, now_ns) == model_concat(pre, sub_model));
        }
        if sub.clock_skew {
            proof {
                lemma_scan_entries_split(entries@, i as int + 1, dir, mode, th, now_ns);
                assert(entries@.subrange(0, entries@.len() as int) =~= entries@);
            }
            return ScanReport { matches, unreadable, clock_skew: true };
        }
        i = i + 1;
    }
    proof {
        assert(entries@.subrange(0, n as int) =~= entries@);
    }
    ScanReport { matches, unreadable, clock_skew: false }
}

/// A prefix of `q` is also a prefix of `q` followed by anything.
proof fn lemma_prefix_extend(p: Seq<Seq<char>>, q: Seq<Seq<char>>, r: Seq<Seq<char>>)
    requires
        p.is_prefix_of(q),
    ensures
        p.is_prefix_of(q + r),
{
    assert(p =~= (q + r).subrange(0, p.len() as int));
}

/// Prefixing both sides with the same sequence preserves the prefix
/// relation.
proof fn lemma_prefix_concat(x: Seq<Seq<char>>, p: Seq<Seq<char>>, q: Seq<Seq<char>>)
    requires
        p.is_prefix_of(q),
    ensures
        (x + p).is_prefix_of(x + q),
{
    assert((x + p) =~= (x + q).subrange(0, (x + p).len() as int));
}

/// What a scan of the single entry `e` reports is governed by staleness
/// alone: the reported matches are a prefix (everything emitted before a
/// possible clock-skew abort) of the stale file paths of `e` in
/// discovery order, and when no skew aborted the scan they are exactly
/// those paths.  Since only `File` entries contribute to
/// [`stale_paths_entry`], a directory is never itself reported, whatever
/// its own timestamps.
pub proof fn lemma_scan_entry_matches_stale(
    e: FsEntry,
    dir: Seq<char>,
    mode: Mode,
    threshold_secs: u64,
    now_ns: u128,
)
    ensures
        scan_entry(e, dir, mode, threshold_secs, now_ns).matches.is_prefix_of(
            stale_paths_entry(e, dir, mode, threshold_secs, now_ns),
        ),
        !scan_entry(e, dir, mode, threshold_secs, now_ns).clock_skew ==> scan_entry(
            e,
            dir,
            mode,
            threshold_secs,
            now_ns,
        ).matches == stale_paths_entry(e, dir, mode, threshold_secs, now_ns),
    decreases e,
{
    match e {
        FsEntry::File { name, meta } => {
            let m = scan_entry(e, dir, mode, threshold_secs, now_ns).matches;
            let p = stale_paths_entry(e, dir, mode, threshold_secs, now_ns);
            assert(m =~= p.subrange(0, m.len() as int));
        },
        FsEntry::Dir { name, entries } => {
            lemma_scan_entries_matches_stale(
                entries@,
                join_path(dir, name@),
                mode,
                threshold_secs,
                now_ns,
            );
        },
    }
}

/// For every tree of entries and every threshold, a file is reported if
/// and only if its selected timestamp makes it stale — the matches of a
/// completed scan are exactly the stale file paths, in discovery order —
/// and an aborted scan has reported a prefix of them.  Directories never
/// appear among the matches.
pub proof fn lemma_scan_entries_matches_stale(
    s: Seq<FsEntry>,
    dir: Seq<char>,
    mode: Mode,
    threshold_secs: u64,
    now_ns: u128,
)
    ensures
        scan_entries(s, dir, mode, threshold_secs, now_ns).matches.is_prefix_of(
            stale_paths(s, dir, mode, threshold_secs, now_ns),
        ),
        !scan_entries(s, dir, mode, threshold_secs, now_ns).clock_skew ==> scan_entries(
            s,
            dir,
            mode,
            threshold_secs,
            now_ns,
        ).matches == stale_paths(s, dir, mode, threshold_secs, now_ns),
    decreases s,
{
    if s.len() == 0 {
        let m = scan_entries(s, dir, mode, threshold_secs, now_ns).matches;
        let p = stale_paths(s, dir, mode, threshold_secs, now_ns);
        assert(m =~= p.subrange(0, m.len() as int));
    } else {
        lemma_scan_entry_matches_stale(s[0], dir, mode, threshold_secs, now_ns);
        lemma_scan_entries_matches_stale(s.drop_first(), dir, mode, threshold_secs, now_ns);
        let a = scan_entry(s[0], dir, mode, threshold_secs, now_ns);
        let b = scan_entries(s.drop_first(), dir, mode, threshold_secs, now_ns);
        let pa = stale_paths_entry(s[0], dir, mode, threshold_secs, now_ns);
        let pb = stale_paths(s.drop_first(), dir, mode, threshold_secs, now_ns);
        if a.clock_skew {
            lemma_prefix_extend(a.matches, pa, pb);
        } else {
            lemma_prefix_concat(pa, b.matches, pb);
            if !b.clock_skew {
                assert(a.matches + b.matches == pa + pb);
            }
        }
    }
}

/// A failure to read one file's metadata never stops a scan of the
/// single entry `e`: the file is diagnosed and the scan goes on.  The
/// diagnostics are a prefix (everything emitted before a possible
/// clock-skew abort) of the unreadable file paths of `e` in discovery
/// order, and when no skew aborted the scan they are exactly those
/// paths.
pub proof fn lemma_scan_entry_unreadable(
    e: FsEntry,
    dir: Seq<char>,
    mode: Mode,
    threshold_secs: u64,
    now_ns: u128,
)
    ensures
        scan_entry(e, dir, mode, threshold_secs, now_ns).unreadable.is_prefix_of(
            unreadable_paths_entry(e, dir),
        ),
        !scan_entry(e, dir, mode, threshold_secs, now_ns).clock_skew ==> scan_entry(
            e,
            dir,
            mode,
            threshold_secs,
            now_ns,
        ).unreadable == unreadable_paths_entry(e, dir),
    decreases e,
{
    match e {
        FsEntry::File { name, meta } => {
            let u = scan_entry(e, dir, mode, threshold_secs, now_ns).unreadable;
            let p = unreadable_paths_entry(e, dir);
            assert(u =~= p.subrange(0, u.len() as int));
        },
        FsEntry::Dir { name, entries } => {
            lemma_scan_entries_unreadable(
                entries@,
                join_path(dir, name@),
                mode,
                threshold_secs,
                now_ns,
            );
        },
    }
}

/// Over a whole tree of entries, a completed scan diagnoses exactly the
/// files whose metadata was unreadable, in discovery order, and an
/// aborted scan has diagnosed a prefix of them.
pub proof fn lemma_scan_entries_unreadable(
    s: Seq<FsEntry>,
    dir: Seq<char>,
    mode: Mode,
    threshold_secs: u64,
    now_ns: u128,
)
    ensures
        scan_entries(s, dir, mode, threshold_secs, now_ns).unreadable.is_prefix_of(
            unreadable_paths(s, dir),
        ),
        !scan_entries(s, dir, mode, threshold_secs, now_ns).clock_skew ==> scan_entries(
            s,
            dir,
            mode,
            threshold_secs,
            now_ns,
        ).unreadable == unreadable_paths(s, dir),
    decreases s,
{
    if s.len() == 0 {
        let u = scan_entries(s, dir, mode, threshold_secs, now_ns).unreadable;
        let p = unreadable_paths(s, dir);
        assert(u =~= p.subrange(0, u.len() as int));
    } else {
        lemma_scan_entry_unreadable(s[0], dir, mode, threshold_secs, now_ns);
        lemma_scan_entries_unreadable(s.drop_first(), dir, mode, threshold_secs, now_ns);
        let a = scan_entry(s[0], dir, mode, threshold_secs, now_ns);
        let b = scan_entries(s.drop_first(), dir, mode, threshold_secs, now_ns);
        let pa = unreadable_paths_entry(s[0], dir);
        let pb = unreadable_paths(s.drop_first(), dir);
        if a.clock_skew {
            lemma_prefix_extend(a.unreadable, pa, pb);
        } else {
            lemma_prefix_concat(pa, b.unreadable, pb);
            if !b.clock_skew {
                assert(a.unreadable + b.unreadable == pa + pb);
            }
        }
    }
}

/// Scanning is a pure function of the tree, the configuration and the
/// reference instant: two successive scans of an unchanged tree with the
/// same parameters yield the same matches, the same diagnostics, and the
/// same verdict.
pub proof fn lemma_scan_idempotent(
    s1: Seq<FsEntry>,
    s2: Seq<FsEntry>,
    dir: Seq<char>,
    mode: Mode,
    threshold_secs: u64,
    now_ns: u128,
)
    requires
        s1 == s2,
    ensures
        scan_entries(s1, dir, mode, threshold_secs, now_ns) == scan_entries(
            s2,
            dir,
            mode,
            threshold_secs,
            now_ns,
        ),
{
}

} // verus!
