//! Progress snapshots and the final report of a run.
//!
//! A snapshot is derived, never stored: it is recomputed from the counters
//! and the file-list length each time one is emitted.  The final result is
//! read once, after the pipeline has been joined and the counters are
//! still.

use vstd::prelude::*;

verus! {

/// One derived view of how far the run has come.  `percentage` is the
/// whole-number percentage of files finished, 0 when there are no files.
#[derive(Clone, Copy, Debug, PartialEq, Eq, Structural)]
pub struct ProgressSnapshot {
    pub current: usize,
    pub total: usize,
    pub percentage: usize,
}

/// Computes the snapshot for the given counters: `current` is everything
/// finished so far, successes and failures alike.
pub fn compute_progress(success: usize, failed: usize, total: usize) -> (s: ProgressSnapshot)
    requires
        success + failed <= total,
        total <= usize::MAX / 100,
    ensures
        s.current == success + failed,
        s.total == total,
        s.percentage == if total == 0 {
            0int
        } else {
            (success + failed) * 100 / (total as int)
        },
        s.percentage <= 100,
{
    let current = success + failed;
    let percentage = if total == 0 {
        0
    } else {
        proof {
            assert(current as int * 100 <= total as int * 100) by (nonlinear_arith)
                requires
                    current <= total,
            ;
            assert(current as int * 100 / (total as int) <= total as int * 100 / (total as int)) by {
                vstd::arithmetic::div_mod::lemma_div_is_ordered(
                    current as int * 100,
                    total as int * 100,
                    total as int,
                );
            }
            assert(total as int * 100 / (total as int) == 100) by (nonlinear_arith)
                requires
                    total > 0,
            ;
        }
        current * 100 / total
    };
    ProgressSnapshot { current, total, percentage }
}

/// A structured diagnostic message for an external observer.
#[derive(Debug, Clone)]
pub struct VerboseMessage {
    pub message: String,
    pub level: String,
}

/// The outcome of one whole run: overall success means no file failed.
/// For ECB mode, "success" only means no structural error occurred — that
/// mode cannot detect a wrong key.
#[derive(Debug)]
pub struct EncryptionResult {
    pub success: bool,
    pub message: String,
    pub success_count: usize,
    pub failed_count: usize,
}

/// Builds the final report from the counters, read once after the
/// pipeline join: success exactly when nothing failed.
pub fn finalize_result(success_count: usize, failed_count: usize) -> (r: EncryptionResult)
    ensures
        r.success == (failed_count == 0),
        r.success_count == success_count,
        r.failed_count == failed_count,
        failed_count == 0 ==> r.message@ == "operation completed"@,
        failed_count != 0 ==> r.message@
            == "completed with failures; check the password and salt, and for pre-existing target files"@,
{
    if failed_count == 0 {
        EncryptionResult {
            success: true,
            message: "operation completed".to_owned(),
            success_count,
            failed_count,
        }
    } else {
        EncryptionResult {
            success: false,
            message:
                "completed with failures; check the password and salt, and for pre-existing target files".to_owned(),
            success_count,
            failed_count,
        }
    }
}

} // verus!
