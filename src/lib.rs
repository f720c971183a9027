//! Coordination layer for resumable transfers to and from an object store:
//! retry classification, a time-of-day scheduler, a monthly byte budget kept
//! in a ledger, the cold-restore state machine of downloads and the planning
//! of chunked uploads.

mod calendar;
mod classify;
mod download;
mod ledger;
mod retry;
mod scheduler;
mod text;
mod upload;

pub use calendar::{Date, StartOfNextMonthExt, TimeOfDay, UtcDateTime};
pub use classify::{classify, sort_by_kind, IntoMaybeRetryable, StoreErrorKind};
pub use download::{
    advance, download_reservation_id, next_action, plan_reservation, restore_already_in_progress,
    Advance, ContentLengthError, DownloadProgress, DownloadStage, Notice, Observation,
    ReservationPlan, RestoreInitiatedProgress, S3Src, SavedProgress, SavedReservation, StageAction,
    StageError, WaitForRestoreStrategy,
};
pub use ledger::{
    Admission, Completion, FileBackedAmountLimiter, FileBackedAmountReservation, Ledger, QueueItem,
    UnlimitedAmountLimiter, UnlimitedAmountReservation,
};
pub use retry::{next_retry_step, MaybeRetryable, RetryStep};
pub use scheduler::{AnyTime, Interval, OperationScheduler, StartTime, TimesOfDay};
pub use text::starts_with;
pub use upload::{
    chunk_count, chunk_object_key, chunk_tagging, upload_reservation_id, ChunkPlan, ChunkedStep,
    UploadChunkedProgress,
};
