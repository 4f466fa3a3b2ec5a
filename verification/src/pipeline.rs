//! The per-file work of a run, and the accounting over all files.
//!
//! Every file in the list is one independent unit of work: read, transform
//! under the installed key, write to the mapped target path, dispose of the
//! source per policy.  The decisions are all here, as one function from the
//! file's bytes to a report; an outer layer performs the reads and carries
//! out the planned write and disposal, in any order and from any number of
//! workers.  Failures stay per-file: one bad file never aborts the run.

use vstd::prelude::*;
use crate::cipher::{
    ecb_decrypt_file, ecb_encrypt_file, ecb_open_of, ecb_seal_of, gcm_decrypt_file,
    gcm_encrypt_file, gcm_file_spec, gcm_open_file_spec, CipherError,
};
use crate::config::{Mode, Operation, Shred, ShredOptions};
use crate::paths::{dest_path, dest_path_spec};

verus! {

/// How one file ended: transformed, failed with a cipher error, or
/// skipped because its bytes could not be read (the file vanished between
/// listing and processing — a non-fatal race, excluded from both
/// counters).
#[derive(Clone, Copy, Debug, PartialEq, Eq, Structural)]
pub enum FileOutcome {
    Succeeded,
    Failed(CipherError),
    Skipped,
}

/// What happens to the source file after a successful transform.
#[derive(Clone, Copy, Debug, PartialEq, Eq, Structural)]
pub enum DisposalAction {
    /// Leave the source untouched.
    Keep,
    /// Plain deletion; the bytes may remain recoverable on disk.
    Delete,
    /// Secure overwrite-and-rename before deletion.
    Shred(ShredOptions),
}

/// An output file the caller must write: the mapped path and the bytes.
#[derive(Debug)]
pub struct PlannedWrite {
    pub path: Vec<u8>,
    pub data: Vec<u8>,
}

/// Everything the caller must do for one file, with its outcome.
#[derive(Debug)]
pub struct FileReport {
    pub outcome: FileOutcome,
    pub write: Option<PlannedWrite>,
    pub disposal: DisposalAction,
}

/// The disposal policy: nothing is touched in a dry run or after a
/// failure; supplied shred parameters win over the delete flag; with
/// neither, the source is kept.
pub open spec fn disposal_spec(
    dry_run: bool,
    shred: Option<Shred>,
    delete_src: bool,
    outcome: FileOutcome,
) -> DisposalAction {
    if dry_run || !(outcome is Succeeded) {
        DisposalAction::Keep
    } else {
        match shred {
            Some(Shred::Shred(so)) => DisposalAction::Shred(so),
            None => if delete_src {
                DisposalAction::Delete
            } else {
                DisposalAction::Keep
            },
        }
    }
}

/// Decides one file of the run.  `data` is the file's bytes, or `None`
/// when the read failed (the file is then skipped without touching either
/// counter).  A dry run reads but neither writes nor disposes.  A
/// successful transform plans a write of the transformed bytes to the
/// mapped target path; a failed one plans nothing, and the source is
/// never disposed of.
pub fn process_file(
    data: Option<Vec<u8>>,
    path: &Vec<u8>,
    source_root: &Vec<u8>,
    target_root: &Vec<u8>,
    operation: Operation,
    mode: Mode,
    key: &Vec<u8>,
    delete_src: bool,
    shred: &Option<Shred>,
    anon_id: Option<u64>,
    dry_run: bool,
) -> (r: FileReport)
    requires
        key@.len() == 32,
    ensures
        r.disposal == disposal_spec(dry_run, *shred, delete_src, r.outcome),
        r.outcome is Skipped <==> data is None,
        data is Some && dry_run ==> r.outcome is Succeeded && r.write is None,
        r.outcome is Failed ==> r.write is None,
        r.outcome is Succeeded && !dry_run ==> (r.write matches Some(w) && w.path@
            == dest_path_spec(path@, source_root@, target_root@, operation, anon_id)),
        data matches Some(msg) ==> dry_run || match (operation, mode) {
            (Operation::Encrypt, Mode::ECB) => r.outcome is Succeeded && (r.write matches Some(w)
                && w.data@ == ecb_seal_of(key@, msg@)),
            (Operation::Encrypt, Mode::GCM) => {
                &&& (r.outcome is Succeeded ==> (r.write matches Some(w)
                    && gcm_open_file_spec(key@, w.data@) == Some(msg@)))
                &&& (r.outcome matches FileOutcome::Failed(e) ==> e
                    == CipherError::NonceUnavailable || e == CipherError::EncryptFailed)
            },
            (Operation::Decrypt, Mode::GCM) => {
                &&& (r.outcome is Succeeded <==> gcm_open_file_spec(key@, msg@) is Some)
                &&& (r.write matches Some(w) ==> Some(w.data@) == gcm_open_file_spec(key@, msg@))
                &&& (r.write matches Some(w) ==> msg@.len() >= 12 && msg@ == gcm_file_spec(
                    key@,
                    msg@.skip(msg@.len() - 12),
                    w.data@,
                ))
                &&& (r.outcome matches FileOutcome::Failed(e) ==> e == CipherError::AuthFailed
                    || e == CipherError::TooShort)
            },
            (Operation::Decrypt, Mode::ECB) => {
                &&& (r.outcome is Succeeded <==> ecb_open_of(key@, msg@) is Some)
                &&& (r.write matches Some(w) ==> Some(w.data@) == ecb_open_of(key@, msg@))
                &&& (r.outcome matches FileOutcome::Failed(e) ==> e == CipherError::BadPadding)
            },
        },
{
    let msg = match data {
        Some(msg) => msg,
        None => {
            return FileReport {
                outcome: FileOutcome::Skipped,
                write: None,
                disposal: DisposalAction::Keep,
            };
        },
    };
    if dry_run {
        return FileReport {
            outcome: FileOutcome::Succeeded,
            write: None,
            disposal: DisposalAction::Keep,
        };
    }
    let transformed: Result<Vec<u8>, CipherError> = match (operation, mode) {
        (Operation::Encrypt, Mode::ECB) => Ok(ecb_encrypt_file(&msg, key)),
        (Operation::Encrypt, Mode::GCM) => gcm_encrypt_file(&msg, key),
        (Operation::Decrypt, Mode::GCM) => gcm_decrypt_file(&msg, key),
        (Operation::Decrypt, Mode::ECB) => ecb_decrypt_file(&msg, key),
    };
    match transformed {
        Ok(out) => {
            let target = dest_path(path, source_root, target_root, operation, anon_id);
            let disposal = match shred {
                Some(Shred::Shred(so)) => DisposalAction::Shred(*so),
                None => if delete_src {
                    DisposalAction::Delete
                } else {
                    DisposalAction::Keep
                },
            };
            FileReport {
                outcome: FileOutcome::Succeeded,
                write: Some(PlannedWrite { path: target, data: out }),
                disposal,
            }
        },
        Err(e) => FileReport {
            outcome: FileOutcome::Failed(e),
            write: None,
            disposal: DisposalAction::Keep,
        },
    }
}

/// How many outcomes in `s` succeeded.
pub open spec fn count_succeeded(s: Seq<FileOutcome>) -> int
    decreases s.len(),
{
    if s.len() == 0 {
        0
    } else {
        count_succeeded(s.drop_last()) + if s.last() is Succeeded {
            1int
        } else {
            0int
        }
    }
}

/// How many outcomes in `s` failed.
pub open spec fn count_failed(s: Seq<FileOutcome>) -> int
    decreases s.len(),
{
    if s.len() == 0 {
        0
    } else {
        count_failed(s.drop_last()) + if s.last() is Failed {
            1int
        } else {
            0int
        }
    }
}

/// How many outcomes in `s` were skipped.
pub open spec fn count_skipped(s: Seq<FileOutcome>) -> int
    decreases s.len(),
{
    if s.len() == 0 {
        0
    } else {
        count_skipped(s.drop_last()) + if s.last() is Skipped {
            1int
        } else {
            0int
        }
    }
}

/// Every file is accounted for exactly once: the succeeded, failed and
/// skipped counts always partition the outcome list.  In particular,
/// after a run in which no file vanished before its read,
/// `SuccessCount + FailedCount` equals the length of the file list; files
/// that did vanish are excluded from both counters, by design.
pub proof fn lemma_outcomes_partition(s: Seq<FileOutcome>)
    ensures
        count_succeeded(s) + count_failed(s) + count_skipped(s) == s.len(),
        0 <= count_succeeded(s) <= s.len(),
        0 <= count_failed(s) <= s.len(),
        0 <= count_skipped(s) <= s.len(),
    decreases s.len(),
{
    if s.len() > 0 {
        lemma_outcomes_partition(s.drop_last());
    }
}

/// The run's counters.  Both start at zero and are only ever incremented;
/// skipped files are counted apart and belong to neither.
#[derive(Clone, Copy, Debug, PartialEq, Eq, Structural, Default)]
pub struct RunCounters {
    pub success: usize,
    pub failed: usize,
    pub skipped: usize,
}

impl RunCounters {
    /// Fresh counters, all zero.
    pub fn new() -> (c: RunCounters)
        ensures
            c.success == 0,
            c.failed == 0,
            c.skipped == 0,
    {
        RunCounters { success: 0, failed: 0, skipped: 0 }
    }

    /// Records one outcome: exactly one counter grows, by one.
    pub fn record(&mut self, outcome: FileOutcome)
        requires
            old(self).success < usize::MAX,
            old(self).failed < usize::MAX,
            old(self).skipped < usize::MAX,
        ensures
            final(self).success == old(self).success + if outcome is Succeeded {
                1int
            } else {
                0int
            },
            final(self).failed == old(self).failed + if outcome is Failed {
                1int
            } else {
                0int
            },
            final(self).skipped == old(self).skipped + if outcome is Skipped {
                1int
            } else {
                0int
            },
    {
        match outcome {
            FileOutcome::Succeeded => {
                self.success += 1;
            },
            FileOutcome::Failed(_) => {
                self.failed += 1;
            },
            FileOutcome::Skipped => {
                self.skipped += 1;
            },
        }
    }
}

/// Tallies a run's outcome list into its counters, which then partition
/// the list as `lemma_outcomes_partition` states.
pub fn tally_outcomes(outcomes: &Vec<FileOutcome>) -> (c: RunCounters)
    ensures
        c.success == count_succeeded(outcomes@),
        c.failed == count_failed(outcomes@),
        c.skipped == count_skipped(outcomes@),
        c.success + c.failed + c.skipped == outcomes@.len(),
{
    let mut c = RunCounters::new();
    let mut i: usize = 0;
    proof {
        assert(outcomes@.take(0) =~= Seq::<FileOutcome>::empty());
    }
    while i < outcomes.len()
        invariant
            i <= outcomes@.len(),
            c.success == count_succeeded(outcomes@.take(i as int)),
            c.failed == count_failed(outcomes@.take(i as int)),
            c.skipped == count_skipped(outcomes@.take(i as int)),
            c.success + c.failed + c.skipped == i,
        decreases outcomes@.len() - i,
    {
        proof {
            lemma_outcomes_partition(outcomes@.take(i as int));
            assert(outcomes@.take(i + 1).drop_last() =~= outcomes@.take(i as int));
            assert(outcomes@.take(i + 1).last() == outcomes@[i as int]);
        }
        c.record(outcomes[i]);
        i += 1;
    }
    proof {
        assert(outcomes@.take(outcomes@.len() as int) =~= outcomes@);
    }
    c
}

} // verus!
