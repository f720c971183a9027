//! The decisions of a download: how its budget reservation is recovered,
//! the cold-restore state machine, and the progress of the transfer.

use crate::text::{concat2, starts_with};
use vstd::prelude::*;

verus! {

/// The object to download.
#[derive(Clone, Debug)]
pub struct S3Src {
    pub bucket: String,
    pub object_key: String,
}

/// How a download waits for a cold object to be restored.
#[derive(Clone, Copy, Debug, PartialEq, Eq, Structural)]
pub enum WaitForRestoreStrategy {
    /// Checks the object every this many seconds until it is restored.
    PollGet(u64),
}

/// The time, in seconds since the Unix epoch, right after the restore was
/// requested or the last status check completed.
#[derive(Clone, Copy, Debug, PartialEq, Eq, Structural)]
pub struct RestoreInitiatedProgress {
    pub last_checked: u64,
}

/// Where a download stands; saved so that it can resume.
#[derive(Clone, Copy, Debug, PartialEq, Eq, Structural)]
pub enum DownloadStage {
    WillInitiateRestore,
    RestoreInitiated(RestoreInitiatedProgress),
    /// The object is ready to download, or downloading.
    RestoreComplete,
}

/// The budget reservation of a download, as saved.
#[derive(Clone, Copy, Debug, PartialEq, Eq, Structural)]
pub struct SavedReservation {
    pub amount: u64,
    /// False when the object was measured but the reservation was not made.
    pub reserved: bool,
}

/// What a download saves to resume after a restart.
#[derive(Clone, Copy, Debug, PartialEq, Eq, Structural)]
pub struct SavedProgress {
    pub reservation: Option<SavedReservation>,
    pub stage: DownloadStage,
}

impl SavedProgress {
    /// The progress of a download that has not begun.
    pub fn fresh() -> (r: SavedProgress)
        ensures
            r.reservation is None,
            r.stage == DownloadStage::WillInitiateRestore,
    {
        SavedProgress { reservation: None, stage: DownloadStage::WillInitiateRestore }
    }

    /// Records that the object measures `amount` bytes, before reserving.
    pub fn record_measured(&mut self, amount: u64)
        ensures
            final(self).reservation == Some(SavedReservation { amount, reserved: false }),
            final(self).stage == old(self).stage,
    {
        self.reservation = Some(SavedReservation { amount, reserved: false });
    }

    /// Records that `amount` bytes are reserved.
    pub fn record_reserved(&mut self, amount: u64)
        ensures
            final(self).reservation == Some(SavedReservation { amount, reserved: true }),
            final(self).stage == old(self).stage,
    {
        self.reservation = Some(SavedReservation { amount, reserved: true });
    }
}

impl Default for SavedProgress {
    fn default() -> (r: SavedProgress)
        ensures
            r.reservation is None,
            r.stage == DownloadStage::WillInitiateRestore,
    {
        SavedProgress::fresh()
    }
}

/// The id under which a download reserves its budget:
/// `download:{bucket}/{object_key}`.
pub fn download_reservation_id(src: &S3Src) -> (r: String)
    ensures
        r@ == "download:"@ + src.bucket@ + "/"@ + src.object_key@,
{
    let r = concat2("download:", src.bucket.as_str());
    let r = concat2(r.as_str(), "/");
    concat2(r.as_str(), src.object_key.as_str())
}

/// How a download gets its budget reservation.
#[derive(Clone, Copy, Debug, PartialEq, Eq, Structural)]
pub enum ReservationPlan {
    /// The ledger still holds the reservation: use it.
    Reuse,
    /// Measure the object, then reserve its length.
    MeasureThenReserve,
    /// Reserve the saved amount.
    ReserveSaved { amount: u64 },
}

/// The plan for the reservation: reuse one the limiter still holds; else
/// measure the object when nothing was saved or the saved amount was never
/// reserved; else reserve the saved amount.
pub fn plan_reservation(saved: Option<SavedReservation>, still_queued: bool) -> (r:
    ReservationPlan)
    ensures
        saved is None ==> r == ReservationPlan::MeasureThenReserve,
        saved matches Some(s) ==> r == (if still_queued {
            ReservationPlan::Reuse
        } else if !s.reserved {
            ReservationPlan::MeasureThenReserve
        } else {
            ReservationPlan::ReserveSaved { amount: s.amount }
        }),
{
    match saved {
        None => ReservationPlan::MeasureThenReserve,
        Some(s) => {
            if still_queued {
                ReservationPlan::Reuse
            } else if !s.reserved {
                ReservationPlan::MeasureThenReserve
            } else {
                ReservationPlan::ReserveSaved { amount: s.amount }
            }
        },
    }
}

/// The next request a download makes from its stage.
#[derive(Clone, Copy, Debug, PartialEq, Eq, Structural)]
pub enum StageAction {
    /// Get the object and write it out.
    Download,
    /// Ask the store to restore the object for a day.
    RequestRestore,
    /// Wait this many seconds, then check the restore status.
    CheckRestore { wait_secs: u64 },
}

/// The seconds still to wait before a status check: the poll interval less
/// the time since the last check, and never less than zero.
pub open spec fn poll_wait(interval: int, last_checked: int, now: int) -> int {
    let elapsed = if now >= last_checked {
        now - last_checked
    } else {
        0
    };
    if interval > elapsed {
        interval - elapsed
    } else {
        0
    }
}

/// The next request from `stage` at `now` (seconds since the Unix epoch);
/// `cold` is the poll interval of a cold object, `None` for a warm one,
/// which is downloaded whatever the stage.
pub fn next_action(stage: DownloadStage, cold: Option<WaitForRestoreStrategy>, now: u64) -> (r:
    StageAction)
    ensures
        cold is None ==> r == StageAction::Download,
        cold matches Some(WaitForRestoreStrategy::PollGet(interval)) ==> r == match stage {
            DownloadStage::WillInitiateRestore => StageAction::RequestRestore,
            DownloadStage::RestoreInitiated(p) => StageAction::CheckRestore {
                wait_secs: poll_wait(interval as int, p.last_checked as int, now as int) as u64,
            },
            DownloadStage::RestoreComplete => StageAction::Download,
        },
{
    match cold {
        None => StageAction::Download,
        Some(WaitForRestoreStrategy::PollGet(interval)) => match stage {
            DownloadStage::WillInitiateRestore => StageAction::RequestRestore,
            DownloadStage::RestoreInitiated(p) => {
                let elapsed: u64 = if now >= p.last_checked {
                    now - p.last_checked
                } else {
                    0
                };
                StageAction::CheckRestore { wait_secs: interval.saturating_sub(elapsed) }
            },
            DownloadStage::RestoreComplete => StageAction::Download,
        },
    }
}

/// Whether a refused restore request only says, by its error `code`, that a
/// restore is already under way, which the download takes as success.
pub fn restore_already_in_progress(code: Option<&str>) -> (r: bool)
    ensures
        r == (code matches Some(c) && c@ == "RestoreAlreadyInProgress"@),
{
    match code {
        None => false,
        Some(c) => {
            let expected = "RestoreAlreadyInProgress";
            let same = c.unicode_len() == expected.unicode_len() && starts_with(c, expected);
            proof {
                if same {
                    assert(c@ =~= expected@);
                }
            }
            same
        },
    }
}

/// What the store answered to the last request.
#[derive(Clone, Debug, PartialEq, Eq)]
pub enum Observation {
    /// The restore was accepted, or one was already in progress, at this time.
    RestoreRequested { at: u64 },
    /// A status check completed at this time with this `x-amz-restore`
    /// header, if any.
    RestoreStatus { restore: Option<String>, at: u64 },
    /// The object was downloaded.
    Downloaded,
    /// The download was refused because the restored copy has expired.
    ObjectStateInvalid,
}

/// What a download reports when its stage changes.
#[derive(Clone, Copy, Debug, PartialEq, Eq, Structural)]
pub enum Notice {
    RestoreInitiated,
    NotYetRestored,
    RestoreComplete,
    /// The restored copy has expired; the restore starts over.
    RestoreExpired,
}

/// An error that ends a download.
#[derive(Clone, Copy, Debug, PartialEq, Eq, Structural)]
pub enum StageError {
    /// The `x-amz-restore` header has neither known form.
    UnknownRestoreString,
    /// The answer does not belong to a request of this stage.
    UnexpectedObservation,
}

/// The result of one answer of the store.
#[derive(Clone, Copy, Debug, PartialEq, Eq, Structural)]
pub enum Advance {
    /// The download goes on from this stage, reporting the notice if any.
    Next { stage: DownloadStage, notice: Option<Notice> },
    Finished,
    Failed(StageError),
}

pub open spec fn restored_prefix() -> Seq<char> {
    "ongoing-request=\"false\""@
}

pub open spec fn ongoing_prefix() -> Seq<char> {
    "ongoing-request=\"true\""@
}

/// The meaning of an `x-amz-restore` header observed at `at`, from stage
/// `RestoreInitiated`.
pub open spec fn status_step(restore: Option<Seq<char>>, at: u64) -> Advance {
    match restore {
        None => Advance::Next {
            stage: DownloadStage::WillInitiateRestore,
            notice: Some(Notice::RestoreExpired),
        },
        Some(h) => if restored_prefix().is_prefix_of(h) {
            Advance::Next { stage: DownloadStage::RestoreComplete, notice: Some(Notice::RestoreComplete) }
        } else if ongoing_prefix().is_prefix_of(h) {
            Advance::Next {
                stage: DownloadStage::RestoreInitiated(RestoreInitiatedProgress { last_checked: at }),
                notice: Some(Notice::NotYetRestored),
            }
        } else {
            Advance::Failed(StageError::UnknownRestoreString)
        },
    }
}

/// One transition of the download.
pub open spec fn advance_spec(stage: DownloadStage, obs: Observation) -> Advance {
    match (stage, obs) {
        (_, Observation::Downloaded) => Advance::Finished,
        (DownloadStage::WillInitiateRestore, Observation::RestoreRequested { at }) => Advance::Next {
            stage: DownloadStage::RestoreInitiated(RestoreInitiatedProgress { last_checked: at }),
            notice: Some(Notice::RestoreInitiated),
        },
        (DownloadStage::RestoreInitiated(_), Observation::RestoreStatus { restore, at }) => status_step(
            match restore {
                Some(h) => Some(h@),
                None => None,
            },
            at,
        ),
        (DownloadStage::RestoreComplete, Observation::ObjectStateInvalid) => Advance::Next {
            stage: DownloadStage::WillInitiateRestore,
            notice: Some(Notice::RestoreExpired),
        },
        _ => Advance::Failed(StageError::UnexpectedObservation),
    }
}

/// The download run from `stage` through the answers `obs`, stopping at the
/// first that finishes or fails it.
pub open spec fn run(stage: DownloadStage, obs: Seq<Observation>) -> Advance
    decreases obs.len(),
{
    if obs.len() == 0 {
        Advance::Next { stage, notice: None }
    } else {
        match advance_spec(stage, obs[0]) {
            Advance::Next { stage: next, notice } => if obs.len() == 1 {
                Advance::Next { stage: next, notice }
            } else {
                run(next, obs.drop_first())
            },
            other => other,
        }
    }
}

/// The stage a download goes on from after answer `obs` in `stage`.
pub fn advance(stage: DownloadStage, obs: &Observation) -> (r: Advance)
    ensures
        r == advance_spec(stage, *obs),
{
    match obs {
        Observation::Downloaded => Advance::Finished,
        Observation::RestoreRequested { at } => match stage {
            DownloadStage::WillInitiateRestore => Advance::Next {
                stage: DownloadStage::RestoreInitiated(RestoreInitiatedProgress { last_checked: *at }),
                notice: Some(Notice::RestoreInitiated),
            },
            _ => Advance::Failed(StageError::UnexpectedObservation),
        },
        Observation::RestoreStatus { restore, at } => match stage {
            DownloadStage::RestoreInitiated(_) => match restore {
                None => Advance::Next {
                    stage: DownloadStage::WillInitiateRestore,
                    notice: Some(Notice::RestoreExpired),
                },
                Some(h) => {
                    if starts_with(h.as_str(), "ongoing-request=\"false\"") {
                        Advance::Next {
                            stage: DownloadStage::RestoreComplete,
                            notice: Some(Notice::RestoreComplete),
                        }
                    } else if starts_with(h.as_str(), "ongoing-request=\"true\"") {
                        Advance::Next {
                            stage: DownloadStage::RestoreInitiated(
                                RestoreInitiatedProgress { last_checked: *at },
                            ),
                            notice: Some(Notice::NotYetRestored),
                        }
                    } else {
                        Advance::Failed(StageError::UnknownRestoreString)
                    }
                },
            },
            _ => Advance::Failed(StageError::UnexpectedObservation),
        },
        Observation::ObjectStateInvalid => match stage {
            DownloadStage::RestoreComplete => Advance::Next {
                stage: DownloadStage::WillInitiateRestore,
                notice: Some(Notice::RestoreExpired),
            },
            _ => Advance::Failed(StageError::UnexpectedObservation),
        },
    }
}

/// A download resumes exactly: when the answers `first` leave it going on
/// from a stage, which is what it saves, running on from that saved stage
/// through any further answers `rest` ends as the run that was never
/// interrupted.
pub proof fn lemma_resume_from_saved_stage(
    stage: DownloadStage,
    first: Seq<Observation>,
    rest: Seq<Observation>,
)
    requires
        run(stage, first) is Next,
        rest.len() > 0,
    ensures
        run(stage, first + rest) == run(run(stage, first)->Next_stage, rest),
    decreases first.len(),
{
    if first.len() == 0 {
        assert(first + rest == rest);
    } else {
        let next = advance_spec(stage, first[0]);
        assert((first + rest)[0] == first[0]);
        assert((first + rest).drop_first() == first.drop_first() + rest);
        if first.len() > 1 {
            lemma_resume_from_saved_stage(next->Next_stage, first.drop_first(), rest);
        } else {
            assert(first.drop_first() + rest == rest);
        }
    }
}

/// How far a download has come, in bytes.
#[derive(Clone, Copy, Debug, PartialEq, Eq, Structural)]
pub struct DownloadProgress {
    pub downloaded_from_s3: u64,
    pub written_to_file: u64,
    pub total: u64,
}

/// An error found in the answer to a download request.
#[derive(Clone, Copy, Debug, PartialEq, Eq, Structural)]
pub enum ContentLengthError {
    /// The answer carries no content length.
    NoContentLength,
    /// The content length is negative.
    ContentLengthConversion,
}

impl DownloadProgress {
    /// The progress at the start of a download whose answer gave
    /// `content_length`.
    pub fn start(content_length: Option<i64>) -> (r: Result<DownloadProgress, ContentLengthError>)
        ensures
            content_length is None ==> r == Err::<DownloadProgress, ContentLengthError>(
                ContentLengthError::NoContentLength,
            ),
            content_length matches Some(n) ==> r == if n < 0 {
                Err(ContentLengthError::ContentLengthConversion)
            } else {
                Ok(DownloadProgress { downloaded_from_s3: 0, written_to_file: 0, total: n as u64 })
            },
    {
        match content_length {
            None => Err(ContentLengthError::NoContentLength),
            Some(n) => {
                if n < 0 {
                    Err(ContentLengthError::ContentLengthConversion)
                } else {
                    Ok(DownloadProgress { downloaded_from_s3: 0, written_to_file: 0, total: n as u64 })
                }
            },
        }
    }

    /// Counts `n` bytes received from the store.
    pub fn record_received(&mut self, n: u64)
        ensures
            final(self).downloaded_from_s3 == if old(self).downloaded_from_s3 + n > u64::MAX {
                u64::MAX as int
            } else {
                old(self).downloaded_from_s3 + n
            },
            final(self).written_to_file == old(self).written_to_file,
            final(self).total == old(self).total,
    {
        self.downloaded_from_s3 = self.downloaded_from_s3.saturating_add(n);
    }

    /// Counts `n` bytes written out.
    pub fn record_written(&mut self, n: u64)
        ensures
            final(self).written_to_file == if old(self).written_to_file + n > u64::MAX {
                u64::MAX as int
            } else {
                old(self).written_to_file + n
            },
            final(self).downloaded_from_s3 == old(self).downloaded_from_s3,
            final(self).total == old(self).total,
    {
        self.written_to_file = self.written_to_file.saturating_add(n);
    }
}

} // verus!
