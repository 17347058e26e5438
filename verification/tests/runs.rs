use installer_fetch::configuration::Configuration;
use installer_fetch::integrity::{VerifyAction, VerifyError, VerifyEvent};
use installer_fetch::models::{DownloadLinks, DownloadOption};
use installer_fetch::notes::Note;
use installer_fetch::outcome::{FailureKind, FetchError, Outcome, Status};
use installer_fetch::pipeline::{Action, Event, Pipeline, Stage, State, Step};
use installer_fetch::selector::SelectionError;
use installer_fetch::transfer::{TransferAction, TransferError, TransferEvent, TransferSession};

const HELLO_WORLD_MD5: &str = "5eb63bbbe01eeed093cb22bb8f5acdc3";
const EMPTY_MD5: &str = "d41d8cd98f00b204e9800998ecf8427e";
const LINK: &str = "https://x/y/installer.exe";

fn run_with(overwrite: bool, skip_verification: bool) -> Pipeline {
    let config = Configuration::new("downloads".to_string(), overwrite, skip_verification);
    Pipeline::new(config, "windows".to_string())
}

fn document(link: &str, size: u64, md5: &str) -> DownloadLinks {
    let mut doc = DownloadLinks::new("1".to_string(), serde_json::Value::Null);
    doc.insert(
        "windows".to_string(),
        DownloadOption::new(size, "2.0.0".to_string(), false, link.to_string(), md5.to_string()),
    );
    doc
}

fn take(run: Pipeline, event: Event) -> (Pipeline, Step) {
    let (run, step) = run.step(event);
    (run, step.expect("the event answers what the run asked for"))
}

fn ask(run: Pipeline, event: Event, action: Action, note: Option<Note>) -> Pipeline {
    let (run, step) = take(run, event);
    assert_eq!(step, Step { action, note });
    run
}

fn end(run: Pipeline, event: Event, outcome: Outcome) -> Pipeline {
    let status = outcome.status();
    let run = ask(run, event, Action::Finish(outcome), None);
    assert_eq!(run.stage(), Stage::Done);
    assert_eq!(run.status(), Some(status));
    run
}

fn directory() -> String {
    "downloads".to_string()
}

fn name() -> String {
    "installer.exe".to_string()
}

fn to_exists_check(run: Pipeline, md5: &str, size: u64) -> Pipeline {
    ask(
        run,
        Event::Metadata(Ok(document(LINK, size, md5))),
        Action::Transfer(TransferAction::CheckExistence { directory: directory(), file_name: name() }),
        None,
    )
}

fn to_reading(run: Pipeline, md5: &str, size: u64) -> Pipeline {
    let run = to_exists_check(run, md5, size);
    let run = ask(
        run,
        Event::Transfer(TransferEvent::Existence(false)),
        Action::Transfer(TransferAction::Open { locator: LINK.to_string() }),
        None,
    );
    let run = ask(
        run,
        Event::Transfer(TransferEvent::Opened(Ok(()))),
        Action::Transfer(TransferAction::CreateDirectory { directory: directory() }),
        None,
    );
    let run = ask(
        run,
        Event::Transfer(TransferEvent::DirectoryCreated(Ok(()))),
        Action::Transfer(TransferAction::CreateFile { directory: directory(), file_name: name() }),
        None,
    );
    ask(
        run,
        Event::Transfer(TransferEvent::FileCreated(Ok(()))),
        Action::Transfer(TransferAction::ReadChunk),
        Some(Note::TransferProgress { position: 0, total: size }),
    )
}

fn write_chunk(run: Pipeline, bytes: &[u8], position: u64, total: u64) -> Pipeline {
    let run = ask(
        run,
        Event::Transfer(TransferEvent::ChunkRead(Ok(Some(bytes.to_vec())))),
        Action::Transfer(TransferAction::WriteChunk { bytes: bytes.to_vec() }),
        None,
    );
    ask(
        run,
        Event::Transfer(TransferEvent::ChunkWritten(Ok(()))),
        Action::Transfer(TransferAction::ReadChunk),
        Some(Note::TransferProgress { position, total }),
    )
}

fn to_verifying(run: Pipeline, md5: &str) -> Pipeline {
    let run = to_reading(run, md5, 11);
    let run = write_chunk(run, b"hello ", 6, 11);
    let run = write_chunk(run, b"world", 11, 11);
    let run = ask(run, Event::Transfer(TransferEvent::ChunkRead(Ok(None))), Action::Transfer(TransferAction::Flush), None);
    let run = ask(
        run,
        Event::Transfer(TransferEvent::Flushed(Ok(()))),
        Action::Verify(VerifyAction::Open { directory: directory(), file_name: name() }),
        None,
    );
    assert_eq!(run.stage(), Stage::Verifying);
    ask(
        run,
        Event::Verification(VerifyEvent::Opened(Ok(()))),
        Action::Verify(VerifyAction::Read),
        Some(Note::VerificationProgress { position: 0, total: 11 }),
    )
}

#[test]
fn a_new_run_is_idle_and_has_transferred_nothing() {
    let run = run_with(false, false);
    assert_eq!(run.stage(), Stage::Idle);
    assert_eq!(run.status(), None);
    assert_eq!(run.session(), TransferSession { bytes_transferred: 0, chunks: 0 });
    assert_eq!(run.config().download_path, "downloads");
}

#[test]
fn a_file_is_fetched_and_verified() {
    let run = to_verifying(run_with(false, false), HELLO_WORLD_MD5);
    let run = ask(
        run,
        Event::Verification(VerifyEvent::Read(Ok(b"hello world".to_vec()))),
        Action::Verify(VerifyAction::Read),
        Some(Note::VerificationProgress { position: 11, total: 11 }),
    );
    let run = end(
        run,
        Event::Verification(VerifyEvent::Read(Ok(Vec::new()))),
        Outcome::Verified { digest: HELLO_WORLD_MD5.to_string() },
    );
    assert_eq!(run.status().map(|status| status.exit_code()), Some(0));
    assert_eq!(run.session(), TransferSession { bytes_transferred: 11, chunks: 2 });
}

#[test]
fn the_file_may_be_read_back_in_other_pieces_than_it_was_written_in() {
    let run = to_verifying(run_with(false, false), HELLO_WORLD_MD5);
    let run = ask(
        run,
        Event::Verification(VerifyEvent::Read(Ok(b"hel".to_vec()))),
        Action::Verify(VerifyAction::Read),
        Some(Note::VerificationProgress { position: 3, total: 11 }),
    );
    let run = ask(
        run,
        Event::Verification(VerifyEvent::Read(Ok(b"lo world".to_vec()))),
        Action::Verify(VerifyAction::Read),
        Some(Note::VerificationProgress { position: 11, total: 11 }),
    );
    end(
        run,
        Event::Verification(VerifyEvent::Read(Ok(Vec::new()))),
        Outcome::Verified { digest: HELLO_WORLD_MD5.to_string() },
    );
}

#[test]
fn a_corrupted_expected_checksum_ends_the_run_as_a_mismatch() {
    let corrupted = "0eb63bbbe01eeed093cb22bb8f5acdc3";
    let run = to_verifying(run_with(false, false), corrupted);
    let (run, _) = take(run, Event::Verification(VerifyEvent::Read(Ok(b"hello world".to_vec()))));
    let run = end(
        run,
        Event::Verification(VerifyEvent::Read(Ok(Vec::new()))),
        Outcome::ChecksumMismatch {
            expected: corrupted.to_string(),
            actual: HELLO_WORLD_MD5.to_string(),
        },
    );
    assert_eq!(run.status(), Some(Status::Failed(FailureKind::ChecksumMismatch)));
    assert_eq!(run.status().map(|status| status.exit_code()), Some(15));
}

#[test]
fn a_file_that_was_changed_on_the_way_ends_the_run_as_a_mismatch() {
    let run = to_verifying(run_with(false, false), HELLO_WORLD_MD5);
    let (run, _) = take(run, Event::Verification(VerifyEvent::Read(Ok(b"hello w0rld".to_vec()))));
    let (run, step) = take(run, Event::Verification(VerifyEvent::Read(Ok(Vec::new()))));
    match step.action {
        Action::Finish(Outcome::ChecksumMismatch { expected, actual }) => {
            assert_eq!(expected, HELLO_WORLD_MD5);
            assert_ne!(actual, HELLO_WORLD_MD5);
            assert_eq!(actual.len(), 32);
        }
        other => panic!("the run should have ended as a mismatch, not with {:?}", other),
    }
    assert_eq!(run.status(), Some(Status::Failed(FailureKind::ChecksumMismatch)));
}

#[test]
fn a_file_that_is_there_is_skipped_each_time() {
    for _ in 0..2 {
        let run = to_exists_check(run_with(false, false), "abc123", 100);
        assert_eq!(run.stage(), Stage::ExistsCheck);
        let run = end(run, Event::Transfer(TransferEvent::Existence(true)), Outcome::SkippedExisting);
        assert_eq!(run.status(), Some(Status::SkippedExisting));
        assert_eq!(run.status().map(|status| status.exit_code()), Some(0));
        assert_eq!(run.session(), TransferSession { bytes_transferred: 0, chunks: 0 });
    }
}

#[test]
fn a_run_that_may_overwrite_replaces_the_file_and_says_so() {
    let run = to_exists_check(run_with(true, false), "abc123", 100);
    let run = ask(
        run,
        Event::Transfer(TransferEvent::Existence(true)),
        Action::Transfer(TransferAction::Open { locator: LINK.to_string() }),
        Some(Note::Replacing),
    );
    assert_eq!(run.stage(), Stage::Transferring);
}

#[test]
fn a_run_that_finds_no_file_fetches_it_without_a_note() {
    let run = to_exists_check(run_with(true, false), "abc123", 100);
    let run = ask(
        run,
        Event::Transfer(TransferEvent::Existence(false)),
        Action::Transfer(TransferAction::Open { locator: LINK.to_string() }),
        None,
    );
    assert_eq!(run.stage(), Stage::Transferring);
}

#[test]
fn a_run_that_skips_verification_ends_at_the_flush() {
    let run = to_reading(run_with(false, true), "never compared", 5);
    let run = write_chunk(run, b"bytes", 5, 5);
    let run = ask(run, Event::Transfer(TransferEvent::ChunkRead(Ok(None))), Action::Transfer(TransferAction::Flush), None);
    let run = end(run, Event::Transfer(TransferEvent::Flushed(Ok(()))), Outcome::Unverified);
    assert_eq!(run.status().map(|status| status.exit_code()), Some(0));
    assert_eq!(run.session(), TransferSession { bytes_transferred: 5, chunks: 1 });
    let (run, step) = run.step(Event::Verification(VerifyEvent::Opened(Ok(()))));
    assert_eq!(step, None);
    assert_eq!(run.status(), Some(Status::Unverified));
}

#[test]
fn a_read_failure_in_the_middle_of_the_body_ends_the_run() {
    let run = to_reading(run_with(false, false), HELLO_WORLD_MD5, 11);
    let run = write_chunk(run, b"hello ", 6, 11);
    let run = end(
        run,
        Event::Transfer(TransferEvent::ChunkRead(Err("connection reset".to_string()))),
        Outcome::TransferFailed(TransferError::Read("connection reset".to_string())),
    );
    assert_eq!(run.status(), Some(Status::Failed(FailureKind::ChunkRead)));
    assert_eq!(run.status().map(|status| status.exit_code()), Some(10));
    assert_eq!(run.session(), TransferSession { bytes_transferred: 6, chunks: 1 });
    let (run, step) = run.step(Event::Verification(VerifyEvent::Opened(Ok(()))));
    assert_eq!(step, None);
    let (run, step) = run.step(Event::Verification(VerifyEvent::Read(Ok(Vec::new()))));
    assert_eq!(step, None);
    assert_eq!(run.stage(), Stage::Done);
}

#[test]
fn an_empty_body_is_transferred_and_verified() {
    let run = to_reading(run_with(false, false), EMPTY_MD5, 0);
    let run = ask(run, Event::Transfer(TransferEvent::ChunkRead(Ok(None))), Action::Transfer(TransferAction::Flush), None);
    assert_eq!(run.session(), TransferSession { bytes_transferred: 0, chunks: 0 });
    let run = ask(
        run,
        Event::Transfer(TransferEvent::Flushed(Ok(()))),
        Action::Verify(VerifyAction::Open { directory: directory(), file_name: name() }),
        None,
    );
    let run = ask(
        run,
        Event::Verification(VerifyEvent::Opened(Ok(()))),
        Action::Verify(VerifyAction::Read),
        Some(Note::VerificationProgress { position: 0, total: 0 }),
    );
    let run = end(
        run,
        Event::Verification(VerifyEvent::Read(Ok(Vec::new()))),
        Outcome::Verified { digest: EMPTY_MD5.to_string() },
    );
    assert_eq!(run.session(), TransferSession { bytes_transferred: 0, chunks: 0 });
}

#[test]
fn an_empty_chunk_is_written_and_counted_as_a_chunk() {
    let run = to_reading(run_with(false, true), "", 0);
    let run = write_chunk(run, b"", 0, 0);
    assert_eq!(run.session(), TransferSession { bytes_transferred: 0, chunks: 1 });
    assert_eq!(run.stage(), Stage::Transferring);
}

#[test]
fn a_metadata_transport_failure_ends_the_run() {
    let run = end(
        run_with(false, false),
        Event::Metadata(Err(FetchError::Transport("no route".to_string()))),
        Outcome::FetchFailed(FetchError::Transport("no route".to_string())),
    );
    assert_eq!(run.status().map(|status| status.exit_code()), Some(1));
}

#[test]
fn a_metadata_decode_failure_ends_the_run() {
    let run = end(
        run_with(false, false),
        Event::Metadata(Err(FetchError::Decode("not json".to_string()))),
        Outcome::FetchFailed(FetchError::Decode("not json".to_string())),
    );
    assert_eq!(run.status().map(|status| status.exit_code()), Some(2));
}

#[test]
fn a_document_without_the_platform_ends_the_run() {
    let mut doc = DownloadLinks::new("1".to_string(), serde_json::Value::Null);
    doc.insert(
        "osx".to_string(),
        DownloadOption::new(1, "1".to_string(), false, LINK.to_string(), "aa".to_string()),
    );
    let run = end(
        run_with(false, false),
        Event::Metadata(Ok(doc)),
        Outcome::SelectionFailed(SelectionError::PlatformNotFound),
    );
    assert_eq!(run.status().map(|status| status.exit_code()), Some(3));
    let (run, step) = run.step(Event::Transfer(TransferEvent::Existence(false)));
    assert_eq!(step, None);
    let (run, step) = run.step(Event::Transfer(TransferEvent::Opened(Ok(()))));
    assert_eq!(step, None);
    assert_eq!(run.session(), TransferSession { bytes_transferred: 0, chunks: 0 });
}

#[test]
fn a_locator_that_names_no_file_ends_the_run() {
    let run = end(
        run_with(false, false),
        Event::Metadata(Ok(document("https://x/y/", 1, "aa"))),
        Outcome::SelectionFailed(SelectionError::MalformedLocator {
            locator: "https://x/y/".to_string(),
        }),
    );
    assert_eq!(run.status().map(|status| status.exit_code()), Some(4));
}

#[test]
fn a_failure_to_open_the_transfer_ends_the_run() {
    let run = to_exists_check(run_with(false, false), "aa", 1);
    let (run, _) = take(run, Event::Transfer(TransferEvent::Existence(false)));
    let run = end(
        run,
        Event::Transfer(TransferEvent::Opened(Err("refused".to_string()))),
        Outcome::TransferFailed(TransferError::Open("refused".to_string())),
    );
    assert_eq!(run.status().map(|status| status.exit_code()), Some(5));
}

#[test]
fn a_failure_to_create_the_directory_ends_the_run() {
    let run = to_exists_check(run_with(false, false), "aa", 1);
    let (run, _) = take(run, Event::Transfer(TransferEvent::Existence(false)));
    let (run, _) = take(run, Event::Transfer(TransferEvent::Opened(Ok(()))));
    let run = end(
        run,
        Event::Transfer(TransferEvent::DirectoryCreated(Err("denied".to_string()))),
        Outcome::TransferFailed(TransferError::CreateDirectory("denied".to_string())),
    );
    assert_eq!(run.status().map(|status| status.exit_code()), Some(6));
}

#[test]
fn a_failure_to_create_the_file_ends_the_run() {
    let run = to_exists_check(run_with(false, false), "aa", 1);
    let (run, _) = take(run, Event::Transfer(TransferEvent::Existence(false)));
    let (run, _) = take(run, Event::Transfer(TransferEvent::Opened(Ok(()))));
    let (run, _) = take(run, Event::Transfer(TransferEvent::DirectoryCreated(Ok(()))));
    let run = end(
        run,
        Event::Transfer(TransferEvent::FileCreated(Err("read-only".to_string()))),
        Outcome::TransferFailed(TransferError::CreateFile("read-only".to_string())),
    );
    assert_eq!(run.status().map(|status| status.exit_code()), Some(7));
}

#[test]
fn a_failure_to_write_a_chunk_ends_the_run_and_the_chunk_is_not_counted() {
    let run = to_reading(run_with(false, false), "aa", 8);
    let run = write_chunk(run, b"four", 4, 8);
    let (run, _) = take(run, Event::Transfer(TransferEvent::ChunkRead(Ok(Some(b"more".to_vec())))));
    let run = end(
        run,
        Event::Transfer(TransferEvent::ChunkWritten(Err("disk full".to_string()))),
        Outcome::TransferFailed(TransferError::Write("disk full".to_string())),
    );
    assert_eq!(run.status().map(|status| status.exit_code()), Some(9));
    assert_eq!(run.session(), TransferSession { bytes_transferred: 4, chunks: 1 });
}

#[test]
fn a_failure_to_flush_ends_the_run() {
    let run = to_reading(run_with(false, false), "aa", 0);
    let (run, _) = take(run, Event::Transfer(TransferEvent::ChunkRead(Ok(None))));
    let run = end(
        run,
        Event::Transfer(TransferEvent::Flushed(Err("io".to_string()))),
        Outcome::TransferFailed(TransferError::Sync("io".to_string())),
    );
    assert_eq!(run.status().map(|status| status.exit_code()), Some(11));
}

#[test]
fn a_failure_to_open_the_file_for_verification_ends_the_run() {
    let run = to_reading(run_with(false, false), "aa", 0);
    let (run, _) = take(run, Event::Transfer(TransferEvent::ChunkRead(Ok(None))));
    let (run, _) = take(run, Event::Transfer(TransferEvent::Flushed(Ok(()))));
    let run = end(
        run,
        Event::Verification(VerifyEvent::Opened(Err("vanished".to_string()))),
        Outcome::VerificationFailed(VerifyError::Open("vanished".to_string())),
    );
    assert_eq!(run.status().map(|status| status.exit_code()), Some(13));
}

#[test]
fn a_failure_to_read_the_file_back_ends_the_run() {
    let run = to_verifying(run_with(false, false), HELLO_WORLD_MD5);
    let (run, _) = take(run, Event::Verification(VerifyEvent::Read(Ok(b"hello".to_vec()))));
    let run = end(
        run,
        Event::Verification(VerifyEvent::Read(Err("bad sector".to_string()))),
        Outcome::VerificationFailed(VerifyError::Read("bad sector".to_string())),
    );
    assert_eq!(run.status().map(|status| status.exit_code()), Some(14));
}

#[test]
fn an_event_that_answers_nothing_is_ignored() {
    let (run, step) = run_with(false, false).step(Event::Transfer(TransferEvent::Existence(true)));
    assert_eq!(step, None);
    assert_eq!(run.stage(), Stage::Idle);
    let run = to_exists_check(run, "aa", 1);
    let (run, step) = run.step(Event::Transfer(TransferEvent::Flushed(Ok(()))));
    assert_eq!(step, None);
    assert_eq!(run.stage(), Stage::ExistsCheck);
    let (run, _) = take(run, Event::Transfer(TransferEvent::Existence(false)));
    let (run, step) = run.step(Event::Transfer(TransferEvent::ChunkRead(Ok(None))));
    assert_eq!(step, None);
    assert_eq!(run.stage(), Stage::Transferring);
    let run = ask(
        run,
        Event::Transfer(TransferEvent::Opened(Ok(()))),
        Action::Transfer(TransferAction::CreateDirectory { directory: directory() }),
        None,
    );
    let (run, step) = run.step(Event::Metadata(Ok(document(LINK, 1, "aa"))));
    assert_eq!(step, None);
    assert_eq!(run.stage(), Stage::Transferring);
    assert_eq!(run.session(), TransferSession { bytes_transferred: 0, chunks: 0 });
}

#[test]
fn a_run_that_has_ended_takes_no_event() {
    let run = to_exists_check(run_with(false, false), "aa", 1);
    let run = end(run, Event::Transfer(TransferEvent::Existence(true)), Outcome::SkippedExisting);
    let (run, step) = run.step(Event::Metadata(Ok(document(LINK, 1, "aa"))));
    assert_eq!(step, None);
    let (run, step) = run.step(Event::Transfer(TransferEvent::Existence(false)));
    assert_eq!(step, None);
    let (run, step) = run.step(Event::Transfer(TransferEvent::ChunkRead(Ok(Some(vec![1, 2, 3])))));
    assert_eq!(step, None);
    assert_eq!(run.status(), Some(Status::SkippedExisting));
    assert_eq!(run.session(), TransferSession { bytes_transferred: 0, chunks: 0 });
}

#[test]
fn the_stages_come_in_their_order() {
    let run = run_with(false, false);
    assert_eq!(run.stage(), Stage::Idle);
    let run = to_exists_check(run, EMPTY_MD5, 0);
    assert_eq!(run.stage(), Stage::ExistsCheck);
    let (run, _) = take(run, Event::Transfer(TransferEvent::Existence(false)));
    assert_eq!(run.stage(), Stage::Transferring);
    let (run, _) = take(run, Event::Transfer(TransferEvent::Opened(Ok(()))));
    assert_eq!(run.stage(), Stage::Transferring);
    let (run, _) = take(run, Event::Transfer(TransferEvent::DirectoryCreated(Ok(()))));
    let (run, _) = take(run, Event::Transfer(TransferEvent::FileCreated(Ok(()))));
    let (run, _) = take(run, Event::Transfer(TransferEvent::ChunkRead(Ok(None))));
    assert_eq!(run.stage(), Stage::Transferring);
    let (run, _) = take(run, Event::Transfer(TransferEvent::Flushed(Ok(()))));
    assert_eq!(run.stage(), Stage::Verifying);
    let (run, _) = take(run, Event::Verification(VerifyEvent::Opened(Ok(()))));
    assert_eq!(run.stage(), Stage::Verifying);
    let (run, _) = take(run, Event::Verification(VerifyEvent::Read(Ok(Vec::new()))));
    assert_eq!(run.stage(), Stage::Done);
}

#[test]
fn the_platform_of_the_run_decides_which_offering_is_taken() {
    let mut doc = document(LINK, 1, "aa");
    doc.insert(
        "osx".to_string(),
        DownloadOption::new(
            2,
            "1".to_string(),
            false,
            "https://x/mac/setup.pkg".to_string(),
            "bb".to_string(),
        ),
    );
    let config = Configuration::new("target".to_string(), false, false);
    let run = Pipeline::new(config, "osx".to_string());
    let run = ask(
        run,
        Event::Metadata(Ok(doc)),
        Action::Transfer(TransferAction::CheckExistence { directory: "target".to_string(), file_name: "setup.pkg".to_string() }),
        None,
    );
    ask(
        run,
        Event::Transfer(TransferEvent::Existence(false)),
        Action::Transfer(TransferAction::Open { locator: "https://x/mac/setup.pkg".to_string() }),
        None,
    );
}

#[test]
fn a_run_knows_its_target_while_it_transfers() {
    let run = to_exists_check(run_with(false, false), "abc123", 100);
    assert_eq!(run.platform(), "windows");
    match run.state() {
        State::Transferring { target, transfer } => {
            assert_eq!(target.descriptor.resource_locator, LINK);
            assert_eq!(target.descriptor.expected_size, 100);
            assert_eq!(target.descriptor.expected_checksum, "abc123");
            assert_eq!(target.file_name, "installer.exe");
            assert_eq!(transfer.file_name(), "installer.exe");
            assert_eq!(transfer.session(), TransferSession { bytes_transferred: 0, chunks: 0 });
        }
        _ => panic!("the run should be transferring"),
    }
}

#[test]
fn a_run_compares_an_expected_checksum_in_capitals_in_lowercase() {
    let capitals = HELLO_WORLD_MD5.to_uppercase();
    let run = to_verifying(run_with(false, false), &capitals);
    let (run, _) = take(run, Event::Verification(VerifyEvent::Read(Ok(b"hello world".to_vec()))));
    let run = end(
        run,
        Event::Verification(VerifyEvent::Read(Ok(Vec::new()))),
        Outcome::Verified { digest: HELLO_WORLD_MD5.to_string() },
    );
    assert_eq!(run.status().map(|status| status.exit_code()), Some(0));
}
