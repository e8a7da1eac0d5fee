use evict_tree::format::format_bytes;
use evict_tree::pipeline::{concurrency_for, pool_size, resolve_concurrency};
use evict_tree::stats::Stats;
use evict_tree::worker::{after_command, after_lookup, begin, AfterLookup, CommandResult, Outcome};

fn counters(s: &Stats) -> [u64; 6] {
    [s.attempted, s.successful, s.failed, s.attempted_bytes, s.successful_bytes, s.failed_bytes]
}

/// Runs one file through every step it reaches, as a worker does.
fn run_file(
    stats: &mut Stats,
    interrupted: bool,
    dry_run: bool,
    metadata: Result<u64, String>,
    command: CommandResult,
) -> Option<Outcome> {
    if !begin(stats, interrupted) {
        return None;
    }
    match after_lookup(stats, dry_run, metadata) {
        AfterLookup::Done(o) => Some(o),
        AfterLookup::Evict(size) => Some(after_command(stats, size, command)),
    }
}

fn ok_command() -> CommandResult {
    CommandResult::Exited { success: true, code: Some(0) }
}

#[test]
fn format_bytes_examples() {
    assert_eq!(format_bytes(0), "0 B");
    assert_eq!(format_bytes(1023), "1023 B");
    assert_eq!(format_bytes(1024), "1.00 KB");
    assert_eq!(format_bytes(1536), "1.50 KB");
    assert_eq!(format_bytes(1024 * 1024 * 1024), "1.00 GB");
}

#[test]
fn format_bytes_each_unit() {
    assert_eq!(format_bytes(1048576), "1.00 MB");
    assert_eq!(format_bytes(1575364), "1.50 MB");
    assert_eq!(format_bytes(1099511627776), "1.00 TB");
    assert_eq!(format_bytes(2621440), "2.50 MB");
}

#[test]
fn format_bytes_caps_at_tb() {
    assert_eq!(format_bytes(1125899906842624), "1024.00 TB");
    assert_eq!(format_bytes(u64::MAX), "16777216.00 TB");
}

#[test]
fn format_bytes_rounds_to_two_decimals() {
    // 1.125 KB is a tie and goes to the even neighbour, as `{:.2}` does.
    assert_eq!(format_bytes(1152), "1.12 KB");
    // 1.375 KB is a tie too.
    assert_eq!(format_bytes(1408), "1.38 KB");
    assert_eq!(format_bytes(1025), "1.00 KB");
    assert_eq!(format_bytes(1048575), "1024.00 KB");
    assert_eq!(format_bytes(1034), "1.01 KB");
}

#[test]
fn format_bytes_unit_never_shrinks() {
    let units = ["B", "KB", "MB", "GB", "TB"];
    let rank = |s: String| units.iter().position(|u| s.ends_with(&format!(" {}", u))).unwrap();
    let mut prev = 0;
    let mut b: u64 = 1;
    while b < u64::MAX / 3 {
        let r = rank(format_bytes(b));
        assert!(r >= prev);
        prev = r;
        b = b * 3 + 1;
    }
}

#[test]
fn stats_record_operations() {
    let mut s = Stats::new();
    assert_eq!(counters(&s), [0; 6]);
    s.record_attempt();
    s.record_attempted_bytes(10);
    s.record_success(10);
    s.record_attempt();
    s.record_attempted_bytes(7);
    s.record_failure(7);
    assert_eq!(counters(&s), [2, 1, 1, 17, 10, 7]);
    assert!(s.is_balanced());
    s.record_attempt();
    assert!(!s.is_balanced());
}

#[test]
fn stats_absorb_adds_and_wraps() {
    let mut a = Stats::new();
    a.record_attempt();
    a.record_attempted_bytes(5);
    let mut b = Stats::new();
    b.record_success(5);
    a.absorb(&b);
    assert_eq!(counters(&a), [1, 1, 0, 5, 5, 0]);
    let mut big = Stats::new();
    big.record_attempted_bytes(u64::MAX);
    let mut one = Stats::new();
    one.record_attempted_bytes(1);
    big.absorb(&one);
    assert_eq!(big.attempted_bytes, 0);
}

#[test]
fn summary_lines_layout() {
    let mut s = Stats::new();
    s.record_attempt();
    s.record_attempted_bytes(2048);
    s.record_failure(2048);
    let lines = s.summary_lines();
    assert_eq!(
        lines,
        vec![
            "".to_string(),
            "=== Summary ===".to_string(),
            "Files attempted: 1 (2.00 KB)".to_string(),
            "Files successful: 0 (0 B)".to_string(),
            "Files failed: 1 (2.00 KB)".to_string(),
            "Eviction complete.".to_string(),
        ]
    );
}

#[test]
fn quiescent_counters_balance() {
    let mut s = Stats::new();
    let cmds = [
        ok_command(),
        CommandResult::Exited { success: false, code: Some(3) },
        CommandResult::LaunchFailed("not found".to_string()),
    ];
    for (i, c) in cmds.iter().enumerate() {
        run_file(&mut s, false, false, Ok(100 * (i as u64 + 1)), c.clone());
    }
    run_file(&mut s, false, false, Err("gone".to_string()), ok_command());
    assert_eq!(counters(&s), [4, 1, 3, 600, 100, 500]);
    assert!(s.is_balanced());
}

#[test]
fn dry_run_never_reaches_the_command() {
    let mut s = Stats::new();
    assert!(begin(&mut s, false));
    let r = after_lookup(&mut s, true, Ok(42));
    assert_eq!(r, AfterLookup::Done(Outcome::DryRunSimulated));
    assert!(begin(&mut s, false));
    let r = after_lookup(&mut s, true, Err("denied".to_string()));
    assert_eq!(r, AfterLookup::Done(Outcome::MetadataError("denied".to_string())));
    assert_eq!(counters(&s), [2, 1, 1, 42, 42, 0]);
}

#[test]
fn live_lookup_hands_on_the_size() {
    let mut s = Stats::new();
    assert!(begin(&mut s, false));
    assert_eq!(after_lookup(&mut s, false, Ok(9)), AfterLookup::Evict(9));
    assert_eq!(counters(&s), [1, 0, 0, 9, 0, 0]);
}

#[test]
fn interrupted_file_is_not_attempted() {
    let mut s = Stats::new();
    assert!(!begin(&mut s, true));
    assert_eq!(counters(&s), [0; 6]);
    let files: [u64; 3] = [1, 2, 3];
    let mut flag = false;
    for (i, size) in files.iter().enumerate() {
        if i == 1 {
            flag = true;
        }
        run_file(&mut s, flag, false, Ok(*size), ok_command());
    }
    assert_eq!(counters(&s), [1, 1, 0, 1, 1, 0]);
    assert!(s.attempted <= files.len() as u64);
}

#[test]
fn command_outcomes() {
    let mut s = Stats::new();
    assert_eq!(after_command(&mut s, 10, ok_command()), Outcome::Evicted);
    assert_eq!(
        after_command(&mut s, 20, CommandResult::Exited { success: false, code: Some(1) }),
        Outcome::CommandFailed(Some(1))
    );
    assert_eq!(
        after_command(&mut s, 30, CommandResult::Exited { success: false, code: None }),
        Outcome::CommandFailed(None)
    );
    assert_eq!(
        after_command(&mut s, 40, CommandResult::LaunchFailed("no brctl".to_string())),
        Outcome::CommandError("no brctl".to_string())
    );
    assert_eq!(counters(&s), [0, 1, 3, 0, 10, 90]);
}

#[test]
fn outcome_messages() {
    assert_eq!(
        Outcome::DryRunSimulated.message("a/b.txt", 1536),
        "[dry-run] Would evict: a/b.txt (1.50 KB)"
    );
    assert_eq!(Outcome::Evicted.message("x", 5), "evicted content of 'x' (5 B)");
    assert_eq!(
        Outcome::CommandFailed(Some(-2)).message("x", 2048),
        "Failed evicting x (2.00 KB) - brctl command failed (exit code: Some(-2))"
    );
    assert_eq!(
        Outcome::CommandFailed(None).message("x", 0),
        "Failed evicting x (0 B) - brctl command failed (exit code: None)"
    );
    assert_eq!(
        Outcome::CommandError("boom".to_string()).message("x", 1),
        "Failed evicting x (1 B) - brctl command error: boom"
    );
    assert_eq!(
        Outcome::MetadataError("gone".to_string()).message("x", 0),
        "Failed to get metadata for x: gone"
    );
    assert!(Outcome::CommandFailed(Some(1)).is_failure());
    assert!(Outcome::MetadataError(String::new()).is_failure());
    assert!(!Outcome::Evicted.is_failure());
    assert!(!Outcome::DryRunSimulated.is_failure());
}

#[test]
fn concurrency_resolution() {
    assert_eq!(resolve_concurrency(Some(3), 8), 3);
    assert_eq!(resolve_concurrency(Some(0), 8), 8);
    assert_eq!(resolve_concurrency(None, 8), 8);
    assert_eq!(concurrency_for(Some(5)), 5);
    assert_eq!(pool_size(4, Some(2)), Some(2));
}

#[test]
fn dry_run_three_files_scenario() {
    let mut s = Stats::new();
    let sizes: [u64; 3] = [500, 2000, 1572864];
    let mut outcomes = Vec::new();
    assert_eq!(pool_size(sizes.len(), Some(2)), Some(2));
    for size in sizes.iter() {
        outcomes.push(run_file(&mut s, false, true, Ok(*size), ok_command()));
    }
    assert!(outcomes.iter().all(|o| *o == Some(Outcome::DryRunSimulated)));
    assert_eq!(counters(&s), [3, 3, 0, 1575364, 1575364, 0]);
    let lines = s.summary_lines();
    assert_eq!(lines[2], "Files attempted: 3 (1.50 MB)");
    assert_eq!(lines[3], "Files successful: 3 (1.50 MB)");
    assert_eq!(lines[4], "Files failed: 0 (0 B)");
}

#[test]
fn empty_directory_scenario() {
    assert_eq!(pool_size(0, Some(2)), None);
    assert_eq!(pool_size(0, None), None);
    let s = Stats::new();
    assert_eq!(counters(&s), [0; 6]);
}

#[test]
fn vanished_file_scenario() {
    let mut s = Stats::new();
    let o = run_file(&mut s, false, false, Err("No such file or directory".to_string()), ok_command());
    assert_eq!(o, Some(Outcome::MetadataError("No such file or directory".to_string())));
    assert_eq!(s.failed, 1);
    assert_eq!(s.failed_bytes, 0);
    assert_eq!(s.successful, 0);
}
