use updater::download::{
    Download, DownloadAction, DownloadEvent, DownloadPhase, DownloadResult, ReadOutcome,
    CHUNK_SIZE,
};
use updater::error::ErrorKind;
use updater::progress::Progress;

fn started(size: u64, progress: &mut Progress) -> Download {
    let mut download = Download::new(size);
    assert_eq!(download.phase(), DownloadPhase::Idle);
    assert!(matches!(download.step(progress, DownloadEvent::Started), DownloadAction::Request));
    assert!(matches!(
        download.step(progress, DownloadEvent::Responded { ok: true }),
        DownloadAction::OpenTempFile
    ));
    assert!(matches!(
        download.step(progress, DownloadEvent::Opened { error: None }),
        DownloadAction::ReadChunk(CHUNK_SIZE)
    ));
    download
}

fn failure(action: DownloadAction) -> (ErrorKind, String) {
    match action {
        DownloadAction::Finish(DownloadResult::Error(e)) => (e.kind(), e.to_string()),
        other => panic!("no failure: {:?}", other),
    }
}

#[test]
fn chunk_size_is_sixteen_kibibytes() {
    assert_eq!(CHUNK_SIZE, 16384);
}

#[test]
fn download_runs_to_completion() {
    let mut progress = Progress::default();
    let mut download = started(1000, &mut progress);
    assert_eq!(download.size(), 1000);
    assert!(!progress.indeterminate());
    assert_eq!(progress.maximum(), 1000);
    assert_eq!(progress.current(), 0);

    let action = download.step(&mut progress, DownloadEvent::Read(ReadOutcome::Chunk(600)));
    assert!(matches!(action, DownloadAction::WriteChunk(600)));
    assert_eq!(download.phase(), DownloadPhase::Writing);
    assert_eq!(progress.current(), 0);
    let action = download.step(&mut progress, DownloadEvent::Written { error: None });
    assert!(matches!(action, DownloadAction::ReadChunk(CHUNK_SIZE)));
    assert_eq!(progress.current(), 600);

    let action = download.step(&mut progress, DownloadEvent::Read(ReadOutcome::Interrupted));
    assert!(matches!(action, DownloadAction::ReadChunk(CHUNK_SIZE)));
    assert_eq!(progress.current(), 600);

    download.step(&mut progress, DownloadEvent::Read(ReadOutcome::Chunk(400)));
    download.step(&mut progress, DownloadEvent::Written { error: None });
    assert_eq!(progress.current(), 1000);

    let action = download.step(&mut progress, DownloadEvent::Read(ReadOutcome::Eof));
    assert!(matches!(action, DownloadAction::Flush));
    let action = download.step(&mut progress, DownloadEvent::Flushed { error: None });
    assert!(matches!(action, DownloadAction::Rewind));
    let action = download.step(&mut progress, DownloadEvent::Rewound { error: None });
    assert!(matches!(action, DownloadAction::Finish(DownloadResult::Complete)));
    assert_eq!(download.phase(), DownloadPhase::Done);
    assert!(!progress.complete());
    assert_eq!(progress.current(), 1000);
}

#[test]
fn download_fails_on_a_bad_response() {
    let mut progress = Progress::default();
    let mut download = Download::new(10);
    download.step(&mut progress, DownloadEvent::Started);
    let action = download.step(&mut progress, DownloadEvent::Responded { ok: false });
    assert_eq!(failure(action), (ErrorKind::Network, "Response not OK".to_string()));
    assert!(progress.indeterminate());
    assert_eq!(progress.maximum(), 0);
    assert_eq!(download.phase(), DownloadPhase::Done);
}

#[test]
fn download_is_cancelled_between_chunks() {
    let mut progress = Progress::default();
    let mut download = started(1000, &mut progress);
    download.step(&mut progress, DownloadEvent::Read(ReadOutcome::Chunk(300)));
    progress.set_cancelled(true);
    let action = download.step(&mut progress, DownloadEvent::Written { error: None });
    assert!(matches!(action, DownloadAction::Finish(DownloadResult::Cancelled)));
    assert_eq!(progress.current(), 300);
    assert_eq!(download.phase(), DownloadPhase::Done);
}

#[test]
fn download_is_cancelled_before_the_first_chunk() {
    let mut progress = Progress::default();
    let mut download = Download::new(5);
    download.step(&mut progress, DownloadEvent::Started);
    download.step(&mut progress, DownloadEvent::Responded { ok: true });
    progress.set_cancelled(true);
    let action = download.step(&mut progress, DownloadEvent::Opened { error: None });
    assert!(matches!(action, DownloadAction::Finish(DownloadResult::Cancelled)));
}

#[test]
fn download_is_cancelled_after_an_interrupted_read() {
    let mut progress = Progress::default();
    let mut download = started(5, &mut progress);
    progress.set_cancelled(true);
    let action = download.step(&mut progress, DownloadEvent::Read(ReadOutcome::Interrupted));
    assert!(matches!(action, DownloadAction::Finish(DownloadResult::Cancelled)));
}

#[test]
fn download_fails_on_file_errors() {
    let mut progress = Progress::default();
    let mut download = Download::new(5);
    download.step(&mut progress, DownloadEvent::Started);
    download.step(&mut progress, DownloadEvent::Responded { ok: true });
    let action = download.step(
        &mut progress,
        DownloadEvent::Opened { error: Some("no space".to_string()) },
    );
    assert_eq!(failure(action), (ErrorKind::Io, "no space".to_string()));

    let mut download = started(5, &mut progress);
    let action = download.step(
        &mut progress,
        DownloadEvent::Read(ReadOutcome::Failed("reset by peer".to_string())),
    );
    assert_eq!(failure(action), (ErrorKind::Io, "reset by peer".to_string()));

    let mut progress = Progress::default();
    let mut download = started(5, &mut progress);
    download.step(&mut progress, DownloadEvent::Read(ReadOutcome::Chunk(5)));
    let action = download.step(
        &mut progress,
        DownloadEvent::Written { error: Some("disk full".to_string()) },
    );
    assert_eq!(failure(action), (ErrorKind::Io, "disk full".to_string()));
    assert_eq!(progress.current(), 0);

    let mut download = started(5, &mut progress);
    download.step(&mut progress, DownloadEvent::Read(ReadOutcome::Eof));
    let action = download.step(
        &mut progress,
        DownloadEvent::Flushed { error: Some("flush".to_string()) },
    );
    assert_eq!(failure(action), (ErrorKind::Io, "flush".to_string()));

    let mut download = started(5, &mut progress);
    download.step(&mut progress, DownloadEvent::Read(ReadOutcome::Eof));
    download.step(&mut progress, DownloadEvent::Flushed { error: None });
    let action = download.step(
        &mut progress,
        DownloadEvent::Rewound { error: Some("seek".to_string()) },
    );
    assert_eq!(failure(action), (ErrorKind::Io, "seek".to_string()));
}

#[test]
fn download_refuses_an_outcome_that_was_not_asked_for() {
    let mut progress = Progress::default();
    let mut download = Download::new(5);
    assert!(download.accepts(&DownloadEvent::Started));
    assert!(!download.accepts(&DownloadEvent::Written { error: None }));
    let action = download.step(&mut progress, DownloadEvent::Written { error: None });
    assert_eq!(failure(action), (ErrorKind::OutOfTurn, "Unexpected event".to_string()));
    assert_eq!(download.phase(), DownloadPhase::Done);
    assert!(!download.accepts(&DownloadEvent::Started));

    let mut download = started(5, &mut progress);
    assert!(!download.accepts(&DownloadEvent::Read(ReadOutcome::Chunk(0))));
    assert!(download.accepts(&DownloadEvent::Read(ReadOutcome::Chunk(1))));
}
