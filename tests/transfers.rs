use aws_sdk_s3::primitives::SdkBody;
use aws_smithy_runtime_api::client::result::SdkError;
use aws_smithy_runtime_api::http::{Response, StatusCode};
use rcs3ud::{
    advance, chunk_count, chunk_object_key, chunk_tagging, classify, download_reservation_id,
    next_action, next_retry_step, sort_by_kind, plan_reservation, restore_already_in_progress, starts_with, upload_reservation_id, Advance,
    ChunkPlan, ChunkedStep, ContentLengthError, DownloadProgress, DownloadStage,
    IntoMaybeRetryable, MaybeRetryable, Notice, Observation, ReservationPlan,
    RestoreInitiatedProgress, RetryStep, S3Src, SavedProgress, SavedReservation, StageAction,
    StageError, StoreErrorKind, UploadChunkedProgress, WaitForRestoreStrategy,
};

#[test]
fn classifier_sorts_every_kind() {
    assert!(classify(StoreErrorKind::Timeout));
    assert!(classify(StoreErrorKind::DispatchFailure));
    assert!(classify(StoreErrorKind::ResponseError));
    assert!(classify(StoreErrorKind::ServiceError { status: 500 }));
    assert!(classify(StoreErrorKind::ServiceError { status: 599 }));
    assert!(!classify(StoreErrorKind::ServiceError { status: 600 }));
    assert!(!classify(StoreErrorKind::ServiceError { status: 404 }));
    assert!(!classify(StoreErrorKind::ServiceError { status: 499 }));
    assert!(!classify(StoreErrorKind::ConstructionFailure));
    assert!(!classify(StoreErrorKind::Other));
    // The same input always gives the same answer.
    assert_eq!(
        classify(StoreErrorKind::ServiceError { status: 503 }),
        classify(StoreErrorKind::ServiceError { status: 503 })
    );
}

fn service_error(status: u16) -> SdkError<&'static str, Response> {
    SdkError::service_error(
        "refused",
        Response::new(StatusCode::try_from(status).unwrap(), SdkBody::empty()),
    )
}

#[test]
fn sdk_errors_are_classified() {
    assert!(matches!(
        service_error(503).into_maybe_retryable(),
        MaybeRetryable::Retryable(_)
    ));
    assert!(matches!(
        service_error(403).into_maybe_retryable(),
        MaybeRetryable::NotRetryable(_)
    ));
    let timeout: SdkError<&'static str, Response> = SdkError::timeout_error("slow");
    assert!(matches!(timeout.into_maybe_retryable(), MaybeRetryable::Retryable(_)));
    let built: SdkError<&'static str, Response> = SdkError::construction_failure("bad");
    assert!(matches!(built.into_maybe_retryable(), MaybeRetryable::NotRetryable(_)));
}

#[test]
fn map_touches_only_terminal_errors() {
    let e: MaybeRetryable<u32, &str> = MaybeRetryable::NotRetryable(4);
    assert_eq!(e.map(|x| x * 10), MaybeRetryable::NotRetryable(40));
    let r: MaybeRetryable<u32, &str> = MaybeRetryable::Retryable("net");
    assert_eq!(r.map(|x| x * 10), MaybeRetryable::Retryable("net"));
}

#[test]
fn retry_steps() {
    let ok: Result<u8, MaybeRetryable<&str, &str>> = Ok(7);
    assert!(matches!(next_retry_step(ok), RetryStep::Finish(Ok(7))));
    let fatal: Result<u8, MaybeRetryable<&str, &str>> = Err(MaybeRetryable::NotRetryable("no"));
    assert!(matches!(next_retry_step(fatal), RetryStep::Finish(Err("no"))));
    let again: Result<u8, MaybeRetryable<&str, &str>> = Err(MaybeRetryable::Retryable("net"));
    assert!(matches!(next_retry_step(again), RetryStep::Retry("net")));
}

#[test]
fn prefixes() {
    assert!(starts_with("ongoing-request=\"true\"", "ongoing-request="));
    assert!(starts_with("abc", ""));
    assert!(!starts_with("ab", "abc"));
    assert!(!starts_with("abd", "abc"));
}

#[test]
fn reservation_ids() {
    let src = S3Src { bucket: "photos".to_string(), object_key: "2024/a.tar".to_string() };
    assert_eq!(download_reservation_id(&src), "download:photos/2024/a.tar");
    assert_eq!(upload_reservation_id("photos", "b.tar"), "upload:photos/b.tar");
}

#[test]
fn reservation_recovery() {
    assert_eq!(plan_reservation(None, false), ReservationPlan::MeasureThenReserve);
    let reserved = SavedReservation { amount: 42, reserved: true };
    let measured = SavedReservation { amount: 42, reserved: false };
    assert_eq!(plan_reservation(Some(reserved), true), ReservationPlan::Reuse);
    assert_eq!(plan_reservation(Some(measured), true), ReservationPlan::Reuse);
    assert_eq!(
        plan_reservation(Some(reserved), false),
        ReservationPlan::ReserveSaved { amount: 42 }
    );
    assert_eq!(plan_reservation(Some(measured), false), ReservationPlan::MeasureThenReserve);
    let mut p = SavedProgress::default();
    p.record_measured(42);
    assert_eq!(p.reservation, Some(measured));
    p.record_reserved(42);
    assert_eq!(p.reservation, Some(reserved));
    assert_eq!(p.stage, DownloadStage::WillInitiateRestore);
}

fn status(h: Option<&str>, at: u64) -> Observation {
    Observation::RestoreStatus { restore: h.map(|s| s.to_string()), at }
}

fn next_stage(a: Advance) -> DownloadStage {
    match a {
        Advance::Next { stage, .. } => stage,
        other => panic!("{other:?}"),
    }
}

#[test]
fn cold_download_polls_until_restored() {
    let cold = Some(WaitForRestoreStrategy::PollGet(1800));
    let mut notices = Vec::new();
    let mut stage = SavedProgress::default().stage;
    assert_eq!(next_action(stage, cold, 100), StageAction::RequestRestore);
    let answers = [
        Observation::RestoreRequested { at: 100 },
        status(Some("ongoing-request=\"true\""), 1900),
        status(Some("ongoing-request=\"true\""), 3700),
        status(Some("ongoing-request=\"false\", expiry-date=\"Fri, 21 Dec 2012 00:00:00 GMT\""), 5500),
    ];
    for obs in answers.iter() {
        let a = advance(stage, obs);
        if let Advance::Next { notice: Some(n), .. } = a {
            notices.push(n);
        }
        stage = next_stage(a);
    }
    assert_eq!(
        notices,
        vec![
            Notice::RestoreInitiated,
            Notice::NotYetRestored,
            Notice::NotYetRestored,
            Notice::RestoreComplete
        ]
    );
    assert_eq!(notices.iter().filter(|n| **n == Notice::NotYetRestored).count(), 2);
    assert_eq!(stage, DownloadStage::RestoreComplete);
    assert_eq!(next_action(stage, cold, 5600), StageAction::Download);
    assert_eq!(advance(stage, &Observation::Downloaded), Advance::Finished);
}

#[test]
fn poll_waits_for_rest_of_interval() {
    let cold = Some(WaitForRestoreStrategy::PollGet(1800));
    let stage = DownloadStage::RestoreInitiated(RestoreInitiatedProgress { last_checked: 1000 });
    assert_eq!(next_action(stage, cold, 1600), StageAction::CheckRestore { wait_secs: 1200 });
    assert_eq!(next_action(stage, cold, 5000), StageAction::CheckRestore { wait_secs: 0 });
    // A last check in the future counts as just now.
    assert_eq!(next_action(stage, cold, 10), StageAction::CheckRestore { wait_secs: 1800 });
    assert_eq!(next_action(stage, None, 1600), StageAction::Download);
}

#[test]
fn expired_restores_start_over() {
    let initiated = DownloadStage::RestoreInitiated(RestoreInitiatedProgress { last_checked: 0 });
    assert_eq!(
        advance(initiated, &status(None, 50)),
        Advance::Next {
            stage: DownloadStage::WillInitiateRestore,
            notice: Some(Notice::RestoreExpired)
        }
    );
    assert_eq!(
        advance(DownloadStage::RestoreComplete, &Observation::ObjectStateInvalid),
        Advance::Next {
            stage: DownloadStage::WillInitiateRestore,
            notice: Some(Notice::RestoreExpired)
        }
    );
    assert_eq!(
        advance(initiated, &status(Some("restored"), 50)),
        Advance::Failed(StageError::UnknownRestoreString)
    );
    assert_eq!(
        advance(DownloadStage::WillInitiateRestore, &Observation::ObjectStateInvalid),
        Advance::Failed(StageError::UnexpectedObservation)
    );
}

#[test]
fn resumed_download_ends_like_uninterrupted_one() {
    let answers = vec![
        Observation::RestoreRequested { at: 1 },
        status(Some("ongoing-request=\"true\""), 2),
        status(None, 3),
        Observation::RestoreRequested { at: 4 },
        status(Some("ongoing-request=\"false\""), 5),
        Observation::Downloaded,
    ];
    let run = |mut stage: DownloadStage, obs: &[Observation]| -> Advance {
        let mut last = Advance::Next { stage, notice: None };
        for o in obs {
            last = advance(stage, o);
            match last {
                Advance::Next { stage: s, .. } => stage = s,
                _ => break,
            }
        }
        last
    };
    let whole = run(DownloadStage::WillInitiateRestore, &answers);
    for cut in 1..answers.len() {
        let saved = next_stage(run(DownloadStage::WillInitiateRestore, &answers[..cut]));
        assert_eq!(run(saved, &answers[cut..]), whole);
    }
    assert_eq!(whole, Advance::Finished);
}

#[test]
fn warm_download_counts_bytes() {
    let mut p = DownloadProgress::start(Some(1024)).unwrap();
    let mut last = p;
    for chunk in [512u64, 256, 256] {
        p.record_received(chunk);
        p.record_written(chunk);
        last = p;
    }
    assert_eq!(last.written_to_file, 1024);
    assert_eq!(last.downloaded_from_s3, 1024);
    assert_eq!(last.total, 1024);
    assert_eq!(DownloadProgress::start(None), Err(ContentLengthError::NoContentLength));
    assert_eq!(DownloadProgress::start(Some(-1)), Err(ContentLengthError::ContentLengthConversion));
}

#[test]
fn chunked_upload_of_2500_bytes() {
    let mut progress = UploadChunkedProgress::default();
    assert_eq!(progress.next_step(1000), ChunkedStep::MeasureFile);
    progress.record_len(2500);
    let mut keys = Vec::new();
    let mut sizes = Vec::new();
    while let ChunkedStep::Upload(plan) = progress.next_step(1000) {
        assert_eq!(plan.index, progress.parts_uploaded);
        assert_eq!(plan.offset, plan.index * 1000);
        keys.push(chunk_object_key("backup.tar", plan.index));
        sizes.push(plan.len);
        let before = progress.parts_uploaded;
        progress.record_part_uploaded();
        assert!(progress.parts_uploaded > before);
    }
    assert_eq!(keys, vec!["backup.tar/0", "backup.tar/1", "backup.tar/2"]);
    assert_eq!(sizes, vec![1000, 1000, 500]);
    assert_eq!(progress.parts_uploaded, 3);
    assert_eq!(progress.next_step(1000), ChunkedStep::Done);
}

#[test]
fn resumed_chunked_upload_continues_where_saved() {
    let saved = UploadChunkedProgress { len: Some(2500), parts_uploaded: 2 };
    assert_eq!(
        saved.next_step(1000),
        ChunkedStep::Upload(ChunkPlan { index: 2, offset: 2000, len: 500 })
    );
    let mut again = saved;
    again.record_len(2500);
    assert_eq!(again.parts_uploaded, 2);
}

#[test]
fn chunk_counts_round_up() {
    assert_eq!(chunk_count(2500, 1000), 3);
    assert_eq!(chunk_count(3000, 1000), 3);
    assert_eq!(chunk_count(0, 1000), 0);
    assert_eq!(chunk_count(u64::MAX, 2), 1 << 63);
    assert_eq!(UploadChunkedProgress { len: Some(0), parts_uploaded: 0 }.next_step(7), ChunkedStep::Done);
}

#[test]
fn chunk_tags() {
    assert_eq!(
        chunk_tagging("backup.tar", 2500, 3, 1000, 12),
        "file=backup.tar&total_len=2500&chunks_count=3&chunk_size=1000&chunk_number=12"
    );
    assert_eq!(chunk_object_key("k", 1234567890), "k/1234567890");
}

#[test]
fn restore_in_progress_code_is_recognised() {
    assert!(restore_already_in_progress(Some("RestoreAlreadyInProgress")));
    assert!(!restore_already_in_progress(Some("RestoreAlreadyInProgressX")));
    assert!(!restore_already_in_progress(Some("Restore")));
    assert!(!restore_already_in_progress(Some("InvalidObjectState")));
    assert!(!restore_already_in_progress(None));
}

#[test]
fn sort_by_kind_keeps_the_error() {
    match sort_by_kind(service_error(404), StoreErrorKind::Timeout) {
        MaybeRetryable::Retryable(SdkError::ServiceError(e)) => {
            assert_eq!(e.raw().status().as_u16(), 404);
            assert_eq!(*e.err(), "refused");
        }
        other => panic!("{other:?}"),
    }
    assert!(matches!(
        sort_by_kind(service_error(503), StoreErrorKind::ServiceError { status: 404 }),
        MaybeRetryable::NotRetryable(SdkError::ServiceError(_))
    ));
    match service_error(502).into_maybe_retryable() {
        MaybeRetryable::Retryable(SdkError::ServiceError(e)) => {
            assert_eq!(e.raw().status().as_u16(), 502)
        }
        other => panic!("{other:?}"),
    }
}
