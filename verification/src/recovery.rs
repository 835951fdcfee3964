//! What became of the writes that an earlier run left unfinished, and what the
//! operator is told.

use crate::text::{decimal, join, render_decimal, texts_of};
use vstd::prelude::*;

verus! {

/// A write that could not be finished, and why.
#[derive(Debug, Clone, PartialEq, Eq)]
pub struct RecoveryIssue {
    pub path: String,
    pub error: String,
}

/// What became of the writes that were left unfinished.
#[derive(Debug, Clone, PartialEq, Eq)]
pub struct RecoveryScanSummary {
    pub discovered: u64,
    pub completed: u64,
    pub rolled_back: u64,
    pub pending: u64,
    pub failed: u64,
    pub issues: Vec<RecoveryIssue>,
}

impl RecoveryScanSummary {
    /// The line that counts the writes.
    pub open spec fn headline(self) -> Seq<char> {
        "lamb: startup recovery: "@ + decimal(self.discovered as nat) + " discovered, "@ + decimal(
            self.completed as nat,
        ) + " completed, "@ + decimal(self.rolled_back as nat) + " rolled back, "@ + decimal(
            self.pending as nat,
        ) + " pending, "@ + decimal(self.failed as nat) + " failed"@
    }

    /// What the operator is told: nothing where nothing was left unfinished, else
    /// the counts and then each issue.
    pub open spec fn report(self) -> Seq<Seq<char>> {
        if self.discovered == 0 {
            Seq::empty()
        } else {
            seq![self.headline()] + self.issues@.map_values(
                |issue: RecoveryIssue| issue.warning(),
            )
        }
    }
}

impl RecoveryIssue {
    /// The line that warns of the issue.
    pub open spec fn warning(self) -> Seq<char> {
        "lamb: warning: recovery of "@ + self.path@ + ": "@ + self.error@
    }
}

/// Adds a number and the words behind it to a line.
fn count(line: String, number: u64, words: &str) -> (longer: String)
    ensures
        longer@ == line@ + decimal(number as nat) + words@,
{
    let number = render_decimal(number);
    let longer = join(line.as_str(), number.as_str());
    join(longer.as_str(), words)
}

/// Words what the operator is told of the writes that were left unfinished.
pub fn log_recovery_summary(summary: &RecoveryScanSummary) -> (lines: Vec<String>)
    ensures
        texts_of(lines@) == summary.report(),
{
    let mut lines: Vec<String> = Vec::new();
    if summary.discovered == 0 {
        proof {
            assert(texts_of(lines@) =~= summary.report());
        }
        return lines;
    }
    let mut line = "lamb: startup recovery: ".to_string();
    line = count(line, summary.discovered, " discovered, ");
    line = count(line, summary.completed, " completed, ");
    line = count(line, summary.rolled_back, " rolled back, ");
    line = count(line, summary.pending, " pending, ");
    line = count(line, summary.failed, " failed");
    lines.push(line);
    let mut i: usize = 0;
    while i < summary.issues.len()
        invariant
            i <= summary.issues.len(),
            summary.discovered > 0,
            lines.len() == i + 1,
            forall|j: int| 0 <= j <= i ==> (#[trigger] lines@[j])@ == summary.report()[j],
        decreases summary.issues.len() - i,
    {
        let issue = &summary.issues[i];
        let mut warning = join("lamb: warning: recovery of ", issue.path.as_str());
        warning = join(warning.as_str(), ": ");
        warning = join(warning.as_str(), issue.error.as_str());
        lines.push(warning);
        i = i + 1;
    }
    proof {
        assert(texts_of(lines@) =~= summary.report());
    }
    lines
}

} // verus!
