//! The per-file state machine: Start, MetadataLookup, then the dry-run or
//! live-eviction branch, then Recorded. The caller performs the metadata
//! lookup and the eviction command and hands their results to each step;
//! each step records in the counters what its state calls for.

use vstd::prelude::*;
use crate::stats::{Stats, Tally, fits};
use crate::format::{decimal, format_bytes, format_bytes_spec, push_decimal};

verus! {

/// What became of one file.
#[derive(Debug, Clone, PartialEq, Eq)]
pub enum Outcome {
    /// Its size could not be read; the text says why.
    MetadataError(String),
    /// The eviction command ran and succeeded.
    Evicted,
    /// Dry run: the file would have been evicted.
    DryRunSimulated,
    /// The eviction command exited with a failure status, with this exit code
    /// when there was one.
    CommandFailed(Option<i32>),
    /// The eviction command could not be run; the text says why.
    CommandError(String),
}

/// What the eviction command reported.
#[derive(Debug, Clone, PartialEq, Eq)]
pub enum CommandResult {
    /// It ran to its end: whether it succeeded, and its exit code if any.
    Exited { success: bool, code: Option<i32> },
    /// It could not be launched.
    LaunchFailed(String),
}

/// Where a file goes after its metadata lookup.
#[derive(Debug, Clone, PartialEq, Eq)]
pub enum AfterLookup {
    /// Recorded with this outcome; nothing more to do.
    Done(Outcome),
    /// Run the eviction command on the file, whose size is given.
    Evict(u64),
}

/// Counters after the start of a file: one more attempt unless interrupted.
pub open spec fn begin_effect(t: Tally, interrupted: bool) -> Tally {
    if interrupted {
        t
    } else {
        t.with_attempt()
    }
}

/// Counters after the metadata lookup (`None`: it failed).
pub open spec fn lookup_effect(t: Tally, dry_run: bool, size: Option<u64>) -> Tally {
    match size {
        None => t.with_failure(0),
        Some(n) => if dry_run {
            t.with_attempted_bytes(n as int).with_success(n as int)
        } else {
            t.with_attempted_bytes(n as int)
        },
    }
}

pub open spec fn command_succeeded(c: CommandResult) -> bool {
    match c {
        CommandResult::Exited { success, .. } => success,
        CommandResult::LaunchFailed(_) => false,
    }
}

/// Counters after the eviction command on a file of `size` bytes.
pub open spec fn command_effect(t: Tally, size: u64, c: CommandResult) -> Tally {
    if command_succeeded(c) {
        t.with_success(size as int)
    } else {
        t.with_failure(size as int)
    }
}

pub open spec fn lookup_next(dry_run: bool, metadata: Result<u64, String>) -> AfterLookup {
    match metadata {
        Err(e) => AfterLookup::Done(Outcome::MetadataError(e)),
        Ok(n) => if dry_run {
            AfterLookup::Done(Outcome::DryRunSimulated)
        } else {
            AfterLookup::Evict(n)
        },
    }
}

pub open spec fn command_outcome(c: CommandResult) -> Outcome {
    match c {
        CommandResult::Exited { success, code } => if success {
            Outcome::Evicted
        } else {
            Outcome::CommandFailed(code)
        },
        CommandResult::LaunchFailed(e) => Outcome::CommandError(e),
    }
}

pub open spec fn size_of(metadata: Result<u64, String>) -> Option<u64> {
    match metadata {
        Ok(n) => Some(n),
        Err(_) => None,
    }
}

/// Decimal text of a signed integer.
pub open spec fn signed_decimal(v: int) -> Seq<char> {
    if v < 0 {
        seq!['-'] + decimal((-v) as nat)
    } else {
        decimal(v as nat)
    }
}

/// An optional exit code as `"Some(<code>)"` or `"None"`.
pub open spec fn exit_code_text(code: Option<i32>) -> Seq<char> {
    match code {
        Some(v) => "Some("@ + signed_decimal(v as int) + ")"@,
        None => "None"@,
    }
}

/// The line reported for a file at `path` of `size` bytes with outcome `o`.
pub open spec fn message_text(o: Outcome, path: Seq<char>, size: nat) -> Seq<char> {
    let sz = format_bytes_spec(size);
    match o {
        Outcome::MetadataError(e) => "Failed to get metadata for "@ + path + ": "@ + e@,
        Outcome::DryRunSimulated => "[dry-run] Would evict: "@ + path + " ("@ + sz + ")"@,
        Outcome::Evicted => "evicted content of '"@ + path + "' ("@ + sz + ")"@,
        Outcome::CommandFailed(code) => "Failed evicting "@ + path + " ("@ + sz
            + ") - brctl command failed (exit code: "@ + exit_code_text(code) + ")"@,
        Outcome::CommandError(e) => "Failed evicting "@ + path + " ("@ + sz
            + ") - brctl command error: "@ + e@,
    }
}

impl Outcome {
    /// Whether the file counts as failed; its line then goes to the error
    /// stream.
    pub fn is_failure(&self) -> (r: bool)
        ensures
            r == !(self is Evicted || self is DryRunSimulated),
    {
        match self {
            Outcome::Evicted | Outcome::DryRunSimulated => false,
            _ => true,
        }
    }

    /// The line reported for this outcome of the file at `path`, of `size`
    /// bytes (unused for a failed lookup).
    pub fn message(&self, path: &str, size: u64) -> (r: String)
        ensures
            r@ == message_text(*self, path@, size as nat),
    {
        let mut s = String::new();
        match self {
            Outcome::MetadataError(e) => {
                s.append("Failed to get metadata for ");
                s.append(path);
                s.append(": ");
                s.append(e.as_str());
            },
            Outcome::DryRunSimulated => {
                s.append("[dry-run] Would evict: ");
                s.append(path);
                s.append(" (");
                push_size(&mut s, size);
                s.append(")");
            },
            Outcome::Evicted => {
                s.append("evicted content of '");
                s.append(path);
                s.append("' (");
                push_size(&mut s, size);
                s.append(")");
            },
            Outcome::CommandFailed(code) => {
                s.append("Failed evicting ");
                s.append(path);
                s.append(" (");
                push_size(&mut s, size);
                s.append(") - brctl command failed (exit code: ");
                push_exit_code(&mut s, *code);
                s.append(")");
            },
            Outcome::CommandError(e) => {
                s.append("Failed evicting ");
                s.append(path);
                s.append(" (");
                push_size(&mut s, size);
                s.append(") - brctl command error: ");
                s.append(e.as_str());
            },
        }
        proof {
            assert(s@ =~= message_text(*self, path@, size as nat));
        }
        s
    }
}

fn push_size(s: &mut String, size: u64)
    ensures
        final(s)@ == old(s)@ + format_bytes_spec(size as nat),
{
    let b = format_bytes(size);
    s.append(b.as_str());
}

fn push_exit_code(s: &mut String, code: Option<i32>)
    ensures
        final(s)@ == old(s)@ + exit_code_text(code),
{
    match code {
        Some(v) => {
            s.append("Some(");
            if v < 0 {
                s.append("-");
                push_decimal(s, (-(v as i64)) as u64);
                proof {
                    reveal_strlit("-");
                    assert(seq!['-'] =~= "-"@);
                }
            } else {
                push_decimal(s, v as u64);
            }
            s.append(")");
            proof {
                assert(final(s)@ =~= old(s)@ + exit_code_text(code));
            }
        },
        None => {
            s.append("None");
        },
    }
}

/// Start: a file is attempted only while the interrupt flag is clear.
/// Returns whether the file goes on to its metadata lookup.
pub fn begin(stats: &mut Stats, interrupted: bool) -> (started: bool)
    requires
        fits(begin_effect(old(stats)@, interrupted)),
    ensures
        started == !interrupted,
        final(stats)@ == begin_effect(old(stats)@, interrupted),
{
    if interrupted {
        false
    } else {
        stats.record_attempt();
        true
    }
}

/// MetadataLookup: records a failed lookup as a failure of zero bytes; in a
/// dry run records the file as a success; otherwise sends it on to the
/// eviction command. A dry run never reaches the command.
pub fn after_lookup(stats: &mut Stats, dry_run: bool, metadata: Result<u64, String>) -> (r:
    AfterLookup)
    requires
        fits(lookup_effect(old(stats)@, dry_run, size_of(metadata))),
    ensures
        r == lookup_next(dry_run, metadata),
        final(stats)@ == lookup_effect(old(stats)@, dry_run, size_of(metadata)),
        dry_run ==> r is Done,
{
    match metadata {
        Err(e) => {
            stats.record_failure(0);
            AfterLookup::Done(Outcome::MetadataError(e))
        },
        Ok(n) => {
            stats.record_attempted_bytes(n);
            if dry_run {
                stats.record_success(n);
                AfterLookup::Done(Outcome::DryRunSimulated)
            } else {
                AfterLookup::Evict(n)
            }
        },
    }
}

/// LiveEviction: records the file of `size` bytes as a success when the
/// command succeeded, else as a failure, and classifies the outcome.
pub fn after_command(stats: &mut Stats, size: u64, result: CommandResult) -> (r: Outcome)
    requires
        fits(command_effect(old(stats)@, size, result)),
    ensures
        r == command_outcome(result),
        final(stats)@ == command_effect(old(stats)@, size, result),
{
    match result {
        CommandResult::Exited { success, code } => {
            if success {
                stats.record_success(size);
                Outcome::Evicted
            } else {
                stats.record_failure(size);
                Outcome::CommandFailed(code)
            }
        },
        CommandResult::LaunchFailed(e) => {
            stats.record_failure(size);
            Outcome::CommandError(e)
        },
    }
}

/// What one file meets on its way: whether the interrupt flag was set when
/// it came up, its size (`None`: the lookup failed), and what the eviction
/// command reported, were it run.
pub struct FileRun {
    pub interrupted: bool,
    pub size: Option<u64>,
    pub command: CommandResult,
}

/// Counters after one file has gone through every step it reaches.
pub open spec fn file_effect(t: Tally, dry_run: bool, f: FileRun) -> Tally {
    if f.interrupted {
        t
    } else {
        let t1 = lookup_effect(begin_effect(t, false), dry_run, f.size);
        match f.size {
            Some(n) => if dry_run {
                t1
            } else {
                command_effect(t1, n, f.command)
            },
            None => t1,
        }
    }
}

/// Counters after the files of `fs`, one after another.
pub open spec fn run_effect(t: Tally, dry_run: bool, fs: Seq<FileRun>) -> Tally
    decreases fs.len(),
{
    if fs.len() == 0 {
        t
    } else {
        file_effect(run_effect(t, dry_run, fs.drop_last()), dry_run, fs.last())
    }
}

/// Number of files in `fs` that came up before the interrupt flag was set.
pub open spec fn started_count(fs: Seq<FileRun>) -> nat
    decreases fs.len(),
{
    if fs.len() == 0 {
        0
    } else {
        started_count(fs.drop_last()) + if fs.last().interrupted {
            0nat
        } else {
            1nat
        }
    }
}

/// A file that has been through all of its steps leaves balanced counters
/// balanced.
pub proof fn lemma_file_balanced(t: Tally, dry_run: bool, f: FileRun)
    requires
        t.balanced(),
    ensures
        file_effect(t, dry_run, f).balanced(),
{
}

/// At quiescence, after any number of files have been through all of their
/// steps, attempted equals successful plus failed, in files and in bytes.
pub proof fn lemma_run_balanced(dry_run: bool, fs: Seq<FileRun>)
    ensures
        run_effect(Tally::zero(), dry_run, fs).balanced(),
    decreases fs.len(),
{
    if fs.len() > 0 {
        lemma_run_balanced(dry_run, fs.drop_last());
        lemma_file_balanced(run_effect(Tally::zero(), dry_run, fs.drop_last()), dry_run, fs.last());
    }
}

/// A file that comes up after the interrupt flag is set changes no counter;
/// so the attempted count is the number of files that came up before it,
/// never more than the files discovered.
pub proof fn lemma_run_attempted(dry_run: bool, fs: Seq<FileRun>)
    ensures
        run_effect(Tally::zero(), dry_run, fs).attempted == started_count(fs),
        started_count(fs) <= fs.len(),
        forall|t: Tally, f: FileRun| f.interrupted ==> #[trigger] file_effect(t, dry_run, f) == t,
    decreases fs.len(),
{
    if fs.len() > 0 {
        lemma_run_attempted(dry_run, fs.drop_last());
    }
}

/// In a dry run every file that is looked up is recorded as a success and
/// none as a failure of a command: failed bytes never grow, and the
/// successful files are those whose size could be read.
pub proof fn lemma_dry_run_no_command(t: Tally, f: FileRun)
    ensures
        file_effect(t, true, f).failed_bytes == t.failed_bytes,
        !f.interrupted && f.size is Some ==> file_effect(t, true, f).successful == t.successful
            + 1,
{
}

} // verus!
