//! What the test and checksum dialogs show in each of their phases, and how
//! test failures are described.
use crate::domain::archive::{TestFailure, TestFailureReason, TestResult};
use crate::domain::repository::{error_message, ArchiveError, ProgressUpdate};
use crate::text::{decimal, decimal_text, hex_upper_text, push_hex_upper};
use vstd::prelude::*;
use vstd::string::*;

verus! {

broadcast use vstd::string::group_string_axioms;

/// "entry" for one, "entries" otherwise.
pub open spec fn entries_word(n: nat) -> Seq<char> {
    if n == 1 {
        "entry"@
    } else {
        "entries"@
    }
}

fn push_entries_word(out: &mut String, n: usize)
    ensures
        final(out)@ == old(out)@ + entries_word(n as nat),
{
    if n == 1 {
        out.append("entry");
    } else {
        out.append("entries");
    }
}

/// "N entr(y|ies) selected".
pub fn entries_selected_text(n: usize) -> (r: String)
    ensures
        r@ == decimal_text(n as nat) + " "@ + entries_word(n as nat) + " selected"@,
{
    let mut r = decimal(n as u64);
    r.append(" ");
    push_entries_word(&mut r, n);
    r.append(" selected");
    r
}

/// "C/T": how far an operation got.
pub fn fraction_text(current: u64, total: u64) -> (r: String)
    ensures
        r@ == decimal_text(current as nat) + "/"@ + decimal_text(total as nat),
{
    let mut r = decimal(current);
    r.append("/");
    let t = decimal(total);
    r.append(t.as_str());
    r
}

// ---------------------------------------------------------------------------
// Test dialog
// ---------------------------------------------------------------------------

/// What the test dialog asks of its owner.
#[derive(Debug, Clone, PartialEq)]
pub enum TestViewIntent {
    Start,
    Cancel,
    Close,
}

/// The phases of the test dialog.
pub enum TestPhase {
    Idle { total: usize },
    Processing { current: u64, total: u64, file: String },
    Complete { passed: usize, failed: Vec<TestFailure> },
    Error(String),
}

/// The test dialog's view.
pub struct TestDialogView {
    pub phase: TestPhase,
}

impl TestDialogView {
    pub fn new(total: usize) -> (r: Self)
        ensures
            r.phase matches TestPhase::Idle { total: t } && t == total,
    {
        TestDialogView { phase: TestPhase::Idle { total } }
    }

    pub fn set_processing(&mut self, current: u64, total: u64, file: &str)
        ensures
            final(self).phase matches TestPhase::Processing { current: c, total: t, file: f } && c == current && t
                == total && f@ == file@,
    {
        self.phase = TestPhase::Processing { current, total, file: String::from_str(file) };
    }

    pub fn set_complete(&mut self, passed: usize, failed: Vec<TestFailure>)
        ensures
            final(self).phase matches TestPhase::Complete { passed: p, failed: f } && p == passed && f@ == failed@,
    {
        self.phase = TestPhase::Complete { passed, failed };
    }

    pub fn set_error(&mut self, msg: &str)
        ensures
            final(self).phase matches TestPhase::Error(m) && m@ == msg@,
    {
        self.phase = TestPhase::Error(String::from_str(msg));
    }

    /// Shows a progress update of the running test: items done of items to
    /// test, and the current file (empty where the update names none).
    pub fn show_update(&mut self, update: &ProgressUpdate)
        ensures
            final(self).phase matches TestPhase::Processing { current: c, total: t, file: f } && c
                == update.items_done && t == update.items_total && f@ == (match update.current_file {
                Some(name) => name@,
                None => Seq::<char>::empty(),
            }),
    {
        match &update.current_file {
            Some(name) => self.set_processing(update.items_done, update.items_total, name.as_str()),
            None => {
                proof {
                    reveal_strlit("");
                }
                self.set_processing(update.items_done, update.items_total, "");
            },
        }
    }

    /// Shows how the test ended: its counts, or the error's message.
    pub fn show_outcome(&mut self, outcome: Result<TestResult, ArchiveError>)
        ensures
            outcome matches Ok(tr) ==> (final(self).phase matches TestPhase::Complete { passed: p, failed: f } && p
                == tr.passed && f@ == tr.failed@),
            outcome matches Err(e) ==> (final(self).phase matches TestPhase::Error(m) && m@ == error_message(e)),
    {
        match outcome {
            Ok(tr) => self.set_complete(tr.passed, tr.failed),
            Err(e) => {
                let m = e.message();
                self.set_error(m.as_str());
            },
        }
    }
}

/// "Test N entr(y|ies) for integrity."
pub fn test_intro_text(total: usize) -> (r: String)
    ensures
        r@ == "Test "@ + decimal_text(total as nat) + " "@ + entries_word(total as nat) + " for integrity."@,
{
    let mut r = String::from_str("Test ");
    let d = decimal(total as u64);
    r.append(d.as_str());
    r.append(" ");
    push_entries_word(&mut r, total);
    r.append(" for integrity.");
    r
}

/// The headline of a finished test: "All Tests Passed", or "F/T Failed"
/// over all `passed + failed` entries.
pub open spec fn test_headline_text(passed: nat, failed: nat) -> Seq<char> {
    if failed == 0 {
        "All Tests Passed"@
    } else {
        decimal_text(failed) + "/"@ + decimal_text(passed + failed) + " Failed"@
    }
}

/// The summary of a finished test: "All N entr(y|ies) passed integrity
/// check." or "P passed, F failed.".
pub open spec fn test_summary_text(passed: nat, failed: nat) -> Seq<char> {
    if failed == 0 {
        "All "@ + decimal_text(passed) + " "@ + entries_word(passed) + " passed integrity check."@
    } else {
        decimal_text(passed) + " passed, "@ + decimal_text(failed) + " failed."@
    }
}

pub fn test_headline(passed: usize, failed: usize) -> (r: String)
    requires
        passed + failed <= usize::MAX,
    ensures
        r@ == test_headline_text(passed as nat, failed as nat),
{
    if failed == 0 {
        return String::from_str("All Tests Passed");
    }
    let total = passed + failed;
    let mut r = fraction_text(failed as u64, total as u64);
    r.append(" Failed");
    r
}

pub fn test_summary(passed: usize, failed: usize) -> (r: String)
    ensures
        r@ == test_summary_text(passed as nat, failed as nat),
{
    if failed == 0 {
        let mut r = String::from_str("All ");
        let d = decimal(passed as u64);
        r.append(d.as_str());
        r.append(" ");
        push_entries_word(&mut r, passed);
        r.append(" passed integrity check.");
        r
    } else {
        let mut r = decimal(passed as u64);
        r.append(" passed, ");
        let f = decimal(failed as u64);
        r.append(f.as_str());
        r.append(" failed.");
        r
    }
}

// ---------------------------------------------------------------------------
// Test results
// ---------------------------------------------------------------------------

/// Why an entry failed, as the results dialog says it; checksums in eight
/// uppercase hexadecimal digits.
pub open spec fn reason_text(reason: TestFailureReason) -> Seq<char> {
    match reason {
        TestFailureReason::CrcMismatch { expected, actual } => "CRC mismatch: expected "@ + hex_upper_text(
            expected as nat,
            8,
        ) + ", got "@ + hex_upper_text(actual as nat, 8),
        TestFailureReason::ReadError(m) => "Read error: "@ + m@,
        TestFailureReason::UnsupportedOperation => "Unsupported operation"@,
    }
}

pub fn failure_reason_text(reason: &TestFailureReason) -> (r: String)
    ensures
        r@ == reason_text(*reason),
{
    match reason {
        TestFailureReason::CrcMismatch { expected, actual } => {
            let mut r = String::from_str("CRC mismatch: expected ");
            push_hex_upper(&mut r, *expected as u64, 8);
            r.append(", got ");
            push_hex_upper(&mut r, *actual as u64, 8);
            r
        },
        TestFailureReason::ReadError(m) => {
            let mut r = String::from_str("Read error: ");
            r.append(m.as_str());
            r
        },
        TestFailureReason::UnsupportedOperation => String::from_str("Unsupported operation"),
    }
}

/// "#I PATH": the index and path of a failed entry.
pub fn failure_heading(f: &TestFailure) -> (r: String)
    ensures
        r@ == "#"@ + decimal_text(f.index as nat) + " "@ + f.path@,
{
    let mut r = String::from_str("#");
    let d = decimal(f.index as u64);
    r.append(d.as_str());
    r.append(" ");
    r.append(f.path.as_str());
    r
}

/// "P passed, F failed".
pub fn results_line(passed: usize, failed: usize) -> (r: String)
    ensures
        r@ == decimal_text(passed as nat) + " passed, "@ + decimal_text(failed as nat) + " failed"@,
{
    let mut r = decimal(passed as u64);
    r.append(" passed, ");
    let f = decimal(failed as u64);
    r.append(f.as_str());
    r.append(" failed");
    r
}

/// "Failed entries (N)".
pub fn failed_entries_label(n: usize) -> (r: String)
    ensures
        r@ == "Failed entries ("@ + decimal_text(n as nat) + ")"@,
{
    let mut r = String::from_str("Failed entries (");
    let d = decimal(n as u64);
    r.append(d.as_str());
    r.append(")");
    r
}

// ---------------------------------------------------------------------------
// Checksum dialog
// ---------------------------------------------------------------------------

/// What the checksum dialog asks of its owner.
#[derive(Debug, Clone, PartialEq)]
pub enum ChecksumViewIntent {
    SelectAlgorithm(String),
    Start,
    Cancel,
    Close,
}

/// The phases of the checksum dialog; results are (name, size, hash).
pub enum ChecksumPhase {
    Idle { total: usize, algorithm: String },
    Processing { current: u64, total: u64, file: String, results: Vec<(String, u64, String)> },
    Complete { results: Vec<(String, u64, String)> },
    Error(String),
}

/// The checksum dialog's view.
pub struct ChecksumDialogView {
    pub phase: ChecksumPhase,
}

impl ChecksumDialogView {
    /// Idle over `total` entries with CRC32 chosen.
    pub fn new(total: usize) -> (r: Self)
        ensures
            r.phase matches ChecksumPhase::Idle { total: t, algorithm: a } && t == total && a@ == "CRC32"@,
    {
        ChecksumDialogView { phase: ChecksumPhase::Idle { total, algorithm: String::from_str("CRC32") } }
    }

    pub fn set_processing(&mut self, current: u64, total: u64, file: &str, results: Vec<(String, u64, String)>)
        ensures
            final(self).phase matches ChecksumPhase::Processing { current: c, total: t, file: f, results: r } && c
                == current && t == total && f@ == file@ && r@ == results@,
    {
        self.phase = ChecksumPhase::Processing { current, total, file: String::from_str(file), results };
    }

    pub fn set_complete(&mut self, results: Vec<(String, u64, String)>)
        ensures
            final(self).phase matches ChecksumPhase::Complete { results: r } && r@ == results@,
    {
        self.phase = ChecksumPhase::Complete { results };
    }

    pub fn set_error(&mut self, msg: &str)
        ensures
            final(self).phase matches ChecksumPhase::Error(m) && m@ == msg@,
    {
        self.phase = ChecksumPhase::Error(String::from_str(msg));
    }
}

/// "NAME: HASH", a line of the checksum results.
pub fn checksum_line(name: &str, hash: &str) -> (r: String)
    ensures
        r@ == name@ + ": "@ + hash@,
{
    let mut r = String::from_str(name);
    r.append(": ");
    r.append(hash);
    r
}

} // verus!
