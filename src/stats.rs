//! The six run counters and the summary report built from them.

use vstd::prelude::*;
use crate::format::{format_bytes, format_bytes_spec, decimal, push_decimal};

verus! {

/// The counters as mathematical integers.
pub struct Tally {
    pub attempted: int,
    pub successful: int,
    pub failed: int,
    pub attempted_bytes: int,
    pub successful_bytes: int,
    pub failed_bytes: int,
}

impl Tally {
    /// Every attempt has been settled as a success or a failure, in files
    /// and in bytes: what holds whenever no file is mid-way.
    pub open spec fn balanced(self) -> bool {
        self.attempted == self.successful + self.failed && self.attempted_bytes
            == self.successful_bytes + self.failed_bytes
    }

    pub open spec fn zero() -> Tally {
        Tally {
            attempted: 0,
            successful: 0,
            failed: 0,
            attempted_bytes: 0,
            successful_bytes: 0,
            failed_bytes: 0,
        }
    }

    pub open spec fn plus(self, o: Tally) -> Tally {
        Tally {
            attempted: self.attempted + o.attempted,
            successful: self.successful + o.successful,
            failed: self.failed + o.failed,
            attempted_bytes: self.attempted_bytes + o.attempted_bytes,
            successful_bytes: self.successful_bytes + o.successful_bytes,
            failed_bytes: self.failed_bytes + o.failed_bytes,
        }
    }

    /// One more file attempted, its size not known yet.
    pub open spec fn with_attempt(self) -> Tally {
        Tally { attempted: self.attempted + 1, ..self }
    }

    pub open spec fn with_attempted_bytes(self, bytes: int) -> Tally {
        Tally { attempted_bytes: self.attempted_bytes + bytes, ..self }
    }

    pub open spec fn with_success(self, bytes: int) -> Tally {
        Tally {
            successful: self.successful + 1,
            successful_bytes: self.successful_bytes + bytes,
            ..self
        }
    }

    pub open spec fn with_failure(self, bytes: int) -> Tally {
        Tally { failed: self.failed + 1, failed_bytes: self.failed_bytes + bytes, ..self }
    }
}

/// Sums of balanced tallies are balanced: files settled independently, in
/// any order, leave the counters balanced once all of them are settled.
pub proof fn lemma_plus_balanced(a: Tally, b: Tally)
    requires
        a.balanced(),
        b.balanced(),
    ensures
        a.plus(b).balanced(),
{
}

/// The run counters: files and bytes attempted, evicted and failed.
pub struct Stats {
    pub attempted: u64,
    pub successful: u64,
    pub failed: u64,
    pub attempted_bytes: u64,
    pub successful_bytes: u64,
    pub failed_bytes: u64,
}

impl View for Stats {
    type V = Tally;

    open spec fn view(&self) -> Tally {
        Tally {
            attempted: self.attempted as int,
            successful: self.successful as int,
            failed: self.failed as int,
            attempted_bytes: self.attempted_bytes as int,
            successful_bytes: self.successful_bytes as int,
            failed_bytes: self.failed_bytes as int,
        }
    }
}

/// Whether every counter of `t` fits in a `u64`.
pub open spec fn fits(t: Tally) -> bool {
    0 <= t.attempted <= u64::MAX && 0 <= t.successful <= u64::MAX && 0 <= t.failed
        <= u64::MAX && 0 <= t.attempted_bytes <= u64::MAX && 0 <= t.successful_bytes
        <= u64::MAX && 0 <= t.failed_bytes <= u64::MAX
}

impl Stats {
    /// All counters at zero.
    pub fn new() -> (r: Stats)
        ensures
            r@ == Tally::zero(),
    {
        Stats {
            attempted: 0,
            successful: 0,
            failed: 0,
            attempted_bytes: 0,
            successful_bytes: 0,
            failed_bytes: 0,
        }
    }

    /// Counts one more attempted file.
    pub fn record_attempt(&mut self)
        requires
            fits(old(self)@.with_attempt()),
        ensures
            final(self)@ == old(self)@.with_attempt(),
    {
        self.attempted = self.attempted + 1;
    }

    /// Adds the size of an attempted file once it is known.
    pub fn record_attempted_bytes(&mut self, bytes: u64)
        requires
            fits(old(self)@.with_attempted_bytes(bytes as int)),
        ensures
            final(self)@ == old(self)@.with_attempted_bytes(bytes as int),
    {
        self.attempted_bytes = self.attempted_bytes + bytes;
    }

    /// Counts one more file evicted (or simulated) and its bytes.
    pub fn record_success(&mut self, bytes: u64)
        requires
            fits(old(self)@.with_success(bytes as int)),
        ensures
            final(self)@ == old(self)@.with_success(bytes as int),
    {
        self.successful = self.successful + 1;
        self.successful_bytes = self.successful_bytes + bytes;
    }

    /// Counts one more failed file and its bytes.
    pub fn record_failure(&mut self, bytes: u64)
        requires
            fits(old(self)@.with_failure(bytes as int)),
        ensures
            final(self)@ == old(self)@.with_failure(bytes as int),
    {
        self.failed = self.failed + 1;
        self.failed_bytes = self.failed_bytes + bytes;
    }

    /// Adds the counters of `other` to these, each wrapping at `u64::MAX`
    /// as a shared atomic counter does.
    pub fn absorb(&mut self, other: &Stats)
        ensures
            fits(old(self)@.plus(other@)) ==> final(self)@ == old(self)@.plus(other@),
            final(self).attempted == old(self).attempted.wrapping_add(other.attempted),
            final(self).successful == old(self).successful.wrapping_add(other.successful),
            final(self).failed == old(self).failed.wrapping_add(other.failed),
            final(self).attempted_bytes == old(self).attempted_bytes.wrapping_add(
                other.attempted_bytes,
            ),
            final(self).successful_bytes == old(self).successful_bytes.wrapping_add(
                other.successful_bytes,
            ),
            final(self).failed_bytes == old(self).failed_bytes.wrapping_add(other.failed_bytes),
    {
        self.attempted = self.attempted.wrapping_add(other.attempted);
        self.successful = self.successful.wrapping_add(other.successful);
        self.failed = self.failed.wrapping_add(other.failed);
        self.attempted_bytes = self.attempted_bytes.wrapping_add(other.attempted_bytes);
        self.successful_bytes = self.successful_bytes.wrapping_add(other.successful_bytes);
        self.failed_bytes = self.failed_bytes.wrapping_add(other.failed_bytes);
    }

    /// Whether the counters are balanced (see `Tally::balanced`).
    pub fn is_balanced(&self) -> (r: bool)
        ensures
            r == self@.balanced(),
    {
        self.attempted as u128 == self.successful as u128 + self.failed as u128
            && self.attempted_bytes as u128 == self.successful_bytes as u128
            + self.failed_bytes as u128
    }

    /// The summary report, one line per entry of the result: a blank line,
    /// a header, the attempted, successful and failed lines, and a closing
    /// line.
    pub fn summary_lines(&self) -> (r: Vec<String>)
        ensures
            r@.len() == 6,
            r@[0]@ == Seq::<char>::empty(),
            r@[1]@ == summary_header(),
            r@[2]@ == count_line(seq!['a', 't', 't', 'e', 'm', 'p', 't', 'e', 'd'],
                self.attempted as nat, self.attempted_bytes as nat),
            r@[3]@ == count_line(seq!['s', 'u', 'c', 'c', 'e', 's', 's', 'f', 'u', 'l'],
                self.successful as nat, self.successful_bytes as nat),
            r@[4]@ == count_line(seq!['f', 'a', 'i', 'l', 'e', 'd'],
                self.failed as nat, self.failed_bytes as nat),
            r@[5]@ == summary_footer(),
    {
        proof {
            reveal_strlit("=== Summary ===");
            reveal_strlit("Eviction complete.");
            reveal_strlit("attempted");
            reveal_strlit("successful");
            reveal_strlit("failed");
        }
        let mut r: Vec<String> = Vec::new();
        r.push(String::new());
        r.push(String::from_str("=== Summary ==="));
        r.push(render_count_line("attempted", self.attempted, self.attempted_bytes));
        r.push(render_count_line("successful", self.successful, self.successful_bytes));
        r.push(render_count_line("failed", self.failed, self.failed_bytes));
        r.push(String::from_str("Eviction complete."));
        r
    }
}

pub open spec fn summary_header() -> Seq<char> {
    seq!['=', '=', '=', ' ', 'S', 'u', 'm', 'm', 'a', 'r', 'y', ' ', '=', '=', '=']
}

pub open spec fn summary_footer() -> Seq<char> {
    seq!['E', 'v', 'i', 'c', 't', 'i', 'o', 'n', ' ', 'c', 'o', 'm', 'p', 'l', 'e', 't', 'e', '.']
}

/// `"Files <label>: <count> (<formatted bytes>)"`.
pub open spec fn count_line(label: Seq<char>, count: nat, bytes: nat) -> Seq<char> {
    seq!['F', 'i', 'l', 'e', 's', ' '] + label + seq![':', ' '] + decimal(count) + seq![
        ' ',
        '(',
    ] + format_bytes_spec(bytes) + seq![')']
}

fn render_count_line(label: &str, count: u64, bytes: u64) -> (r: String)
    ensures
        r@ == count_line(label@, count as nat, bytes as nat),
{
    proof {
        reveal_strlit("Files ");
        reveal_strlit(": ");
        reveal_strlit(" (");
        reveal_strlit(")");
    }
    let mut s = String::from_str("Files ");
    s.append(label);
    s.append(": ");
    push_decimal(&mut s, count);
    s.append(" (");
    let b = format_bytes(bytes);
    s.append(b.as_str());
    s.append(")");
    proof {
        assert(s@ =~= count_line(label@, count as nat, bytes as nat));
    }
    s
}

} // verus!
