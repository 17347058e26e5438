use crate::checksum::md5_digest;
use crate::configuration::ConfigurationView;
use crate::integrity::{lowered, verification, VerificationView, VerifierView, VerifyActionView,
    VerifyEventView, VerifyPhase};
use crate::models::DownloadLinksView;
use crate::outcome::{status_code, FailureKind, OutcomeView, Status};
use crate::pipeline::{ActionView, EventView, PipelineView, Stage, StateView};
use crate::selector::{final_segment, selection, SelectionErrorView};
use crate::transfer::{TransferActionView, TransferErrorView, TransferEventView,
    TransferPhaseView, TransferSession};
use crate::utils::hex_encoding;
use vstd::prelude::*;

verus! {

/// The place of a stage in the order in which a run passes the stages.
pub open spec fn stage_rank(stage: Stage) -> nat {
    match stage {
        Stage::Idle => 0,
        Stage::ExistsCheck => 1,
        Stage::Transferring => 2,
        Stage::Verifying => 3,
        Stage::Done => 4,
    }
}

/// Whether a run that transfers does so for its target and by its configuration: the
/// file name is the last segment of the locator and is not empty, and the transfer
/// reads from the target's locator and writes that file into the configured directory.
pub open spec fn transfers_its_target(run: PipelineView) -> bool {
    match run.state {
        StateView::Transferring { target, transfer } => {
            &&& target.file_name == final_segment(target.descriptor.resource_locator)
            &&& target.file_name.len() > 0
            &&& transfer.file_name == target.file_name
            &&& transfer.locator == target.descriptor.resource_locator
            &&& transfer.expected_size == target.descriptor.expected_size
            &&& transfer.directory == run.config.download_path
            &&& transfer.overwrite == run.config.overwrite
        },
        _ => true,
    }
}

/// A run that has ended takes no event: it stands where it stood, whatever comes.
pub proof fn lemma_done_is_final(run: PipelineView, events: Seq<EventView>)
    requires
        run.state is Done,
    ensures
        events.len() > 0 ==> run.next(events.first()) is None,
        run.after(events) == run,
    decreases events.len(),
{
    if events.len() > 0 {
        lemma_done_is_final(run, events.drop_first());
    }
}

/// A step ends the run exactly when it asks for nothing more, and the run then stands
/// in the status of the outcome that the step hands out.
pub proof fn lemma_finish_marks_the_end(run: PipelineView, event: EventView)
    requires
        run.next(event) is Some,
    ensures
        ({
            let (then, step) = run.next(event)->Some_0;
            &&& step.action is Finish <==> then.state is Done
            &&& step.action is Finish ==> then.state->status == step.action->Finish_0.status()
        }),
{
}

/// No step takes a run back: the stage stays or is a later one, what was transferred
/// is not taken away, and the run keeps its configuration and its platform.
pub proof fn lemma_step_moves_forward(run: PipelineView, event: EventView)
    ensures
        stage_rank(run.state.stage()) <= stage_rank(run.resumed(event).state.stage()),
        run.resumed(event).config == run.config,
        run.resumed(event).platform == run.platform,
        transfers_its_target(run) ==> transfers_its_target(run.resumed(event)),
        run.state.transferred().bytes_transferred <= run.resumed(
            event,
        ).state.transferred().bytes_transferred,
        run.state.transferred().chunks <= run.resumed(event).state.transferred().chunks,
{
}

/// No sequence of events takes a run back to a stage that it has left.
pub proof fn lemma_run_moves_forward(run: PipelineView, events: Seq<EventView>)
    ensures
        stage_rank(run.state.stage()) <= stage_rank(run.after(events).state.stage()),
        run.after(events).config == run.config,
        run.after(events).platform == run.platform,
        transfers_its_target(run) ==> transfers_its_target(run.after(events)),
        run.state.transferred().bytes_transferred <= run.after(
            events,
        ).state.transferred().bytes_transferred,
        run.state.transferred().chunks <= run.after(events).state.transferred().chunks,
    decreases events.len(),
{
    if events.len() > 0 {
        lemma_step_moves_forward(run, events.first());
        lemma_run_moves_forward(run.resumed(events.first()), events.drop_first());
    }
}

/// A document that has nothing for the run's platform ends an idle run at once, as
/// `PlatformNotFound`: no step asks anything of the network, whatever comes after.
pub proof fn lemma_missing_platform_ends_run(
    run: PipelineView,
    doc: DownloadLinksView,
    later: Seq<EventView>,
)
    requires
        run.state is Idle,
        !doc.content.contains_key(run.platform),
    ensures
        run.next(EventView::Metadata(Ok(doc))) == Some(
            run.finishes(OutcomeView::SelectionFailed(SelectionErrorView::PlatformNotFound)),
        ),
        run.resumed(EventView::Metadata(Ok(doc))).after(later).state == (StateView::Done {
            status: Status::Failed(FailureKind::PlatformNotFound),
            transferred: TransferSession { bytes_transferred: 0, chunks: 0 },
        }),
{
    lemma_done_is_final(run.resumed(EventView::Metadata(Ok(doc))), later);
}

/// A run that may not overwrite and finds its file there ends as `SkippedExisting`
/// and has transferred nothing. This holds of every such run, so of a second one as
/// of the first.
pub proof fn lemma_existing_file_is_skipped(
    config: ConfigurationView,
    platform: Seq<char>,
    doc: DownloadLinksView,
)
    requires
        !config.overwrite,
        selection(doc, platform) is Ok,
    ensures
        ({
            let run = PipelineView::initial(config, platform);
            let asked = run.next(EventView::Metadata(Ok(doc)));
            let ended = asked->Some_0.0.next(
                EventView::Transfer(TransferEventView::Existence(true)),
            );
            &&& asked is Some
            &&& asked->Some_0.1.action == ActionView::Transfer(
                TransferActionView::CheckExistence {
                    directory: config.download_path,
                    file_name: final_segment(doc.content[platform].download_link),
                },
            )
            &&& ended is Some
            &&& ended->Some_0.1.action == ActionView::Finish(OutcomeView::SkippedExisting)
            &&& ended->Some_0.0.state == (StateView::Done {
                status: Status::SkippedExisting,
                transferred: TransferSession { bytes_transferred: 0, chunks: 0 },
            })
        }),
{
}

/// A failure to read a chunk ends the run as the read failure, with that failure's
/// exit code, and nothing is verified afterwards.
pub proof fn lemma_read_failure_ends_run(
    run: PipelineView,
    cause: Seq<char>,
    later: Seq<EventView>,
)
    requires
        run.state is Transferring,
        run.state->transfer.phase == TransferPhaseView::Reading,
    ensures
        run.next(EventView::Transfer(TransferEventView::ChunkRead(Err(cause)))) == Some(
            run.finishes(OutcomeView::TransferFailed(TransferErrorView::Read(cause))),
        ),
        run.resumed(EventView::Transfer(TransferEventView::ChunkRead(Err(cause)))).after(
            later,
        ).state == (StateView::Done {
            status: Status::Failed(FailureKind::ChunkRead),
            transferred: run.state.transferred(),
        }),
        status_code(Status::Failed(FailureKind::ChunkRead)) == 10,
{
    lemma_done_is_final(
        run.resumed(EventView::Transfer(TransferEventView::ChunkRead(Err(cause)))),
        later,
    );
}

/// A run that skips verification ends as `Unverified` once the file is flushed.
pub proof fn lemma_flushed_file_ends_skipping_run(run: PipelineView)
    requires
        run.config.skip_verification,
        run.state is Transferring,
        run.state->transfer.phase == TransferPhaseView::Flushing,
    ensures
        run.next(EventView::Transfer(TransferEventView::Flushed(Ok(())))) is Some,
        run.next(EventView::Transfer(TransferEventView::Flushed(Ok(()))))->Some_0.1.action
            == ActionView::Finish(OutcomeView::Unverified),
        run.resumed(EventView::Transfer(TransferEventView::Flushed(Ok(())))).state == (
        StateView::Done { status: Status::Unverified, transferred: run.state.transferred() }),
{
}

/// Whether a status can only come of verifying.
pub open spec fn comes_of_verifying(status: Status) -> bool {
    status == Status::Verified || status == Status::Failed(FailureKind::ChecksumMismatch)
        || status == Status::Failed(FailureKind::VerificationOpen) || status == Status::Failed(
        FailureKind::VerificationRead,
    )
}

/// Whether a run neither verifies nor has ended in a status that comes of verifying.
pub open spec fn has_not_verified(run: PipelineView) -> bool {
    match run.state {
        StateView::Verifying { .. } => false,
        StateView::Done { status, .. } => !comes_of_verifying(status),
        _ => true,
    }
}

/// A run that skips verification and has not verified never will: no step asks for
/// anything that has to do with verifying, and the run neither comes to verify nor ends
/// in a status that comes of verifying.
pub proof fn lemma_skipping_run_never_verifies(run: PipelineView, events: Seq<EventView>)
    requires
        run.config.skip_verification,
        has_not_verified(run),
    ensures
        has_not_verified(run.after(events)),
        events.len() > 0 && run.next(events.first()) is Some ==> !(run.next(
            events.first(),
        )->Some_0.1.action is Verify),
    decreases events.len(),
{
    if events.len() > 0 {
        lemma_skipping_run_never_verifies(run.resumed(events.first()), events.drop_first());
    }
}

/// A run reads its file back only once the file is flushed: the step that asks to open
/// the file anew is the one that takes the word that the flush is done, and only a run
/// that verifies asks to read.
pub proof fn lemma_file_is_read_back_after_the_flush(run: PipelineView, event: EventView)
    requires
        run.next(event) is Some,
        run.next(event)->Some_0.1.action is Verify,
    ensures
        ({
            let action = run.next(event)->Some_0.1.action->Verify_0;
            &&& action is Open ==> !run.config.skip_verification && run.state is Transferring
                && run.state->transfer.phase == TransferPhaseView::Flushing && event is Transfer
                && event->Transfer_0 is Flushed && event->Transfer_0->Flushed_0 is Ok
            &&& action is Read ==> run.state is Verifying
        }),
{
}

/// The events that hand a verifying run the given pieces, one after the other.
pub open spec fn pieces_read(pieces: Seq<Seq<u8>>) -> Seq<EventView> {
    Seq::new(pieces.len(), |i: int| EventView::Verification(VerifyEventView::Read(Ok(pieces[i]))))
}

/// A verifying run that is given pieces one by one holds what it held, followed by the
/// pieces joined.
pub proof fn lemma_pieces_are_joined(
    run: PipelineView,
    verification: VerificationView,
    pieces: Seq<Seq<u8>>,
)
    requires
        run.state is Verifying,
        run.state->verification == verification,
        verification.phase == VerifyPhase::Reading,
        forall|i: int| 0 <= i < pieces.len() ==> (#[trigger] pieces[i]).len() > 0,
    ensures
        ({
            let fed = run.after(pieces_read(pieces));
            &&& fed.state is Verifying
            &&& fed.state->verification.phase == VerifyPhase::Reading
            &&& fed.state->verification.expected_checksum == verification.expected_checksum
            &&& fed.state->verification.expected_size == verification.expected_size
            &&& fed.state->verification.verifier.content == verification.verifier.content
                + pieces.flatten()
            &&& fed.state->Verifying_transferred == run.state->Verifying_transferred
            &&& fed.config == run.config
            &&& fed.platform == run.platform
        }),
    decreases pieces.len(),
{
    if pieces.len() == 0 {
        assert(pieces_read(pieces).len() == 0);
        assert(pieces.flatten() =~= Seq::<u8>::empty());
        assert(verification.verifier.content + pieces.flatten()
            =~= verification.verifier.content);
    } else {
        let first = pieces.first();
        let rest = pieces.drop_first();
        let event = EventView::Verification(VerifyEventView::Read(Ok(first)));
        assert(pieces_read(pieces).first() == event);
        assert(pieces_read(pieces).drop_first() =~= pieces_read(rest));
        let then = run.resumed(event);
        lemma_pieces_are_joined(then, then.state->verification, rest);
        assert(pieces.flatten() =~= first + rest.flatten());
        assert((verification.verifier.content + first) + rest.flatten()
            =~= verification.verifier.content + pieces.flatten());
    }
}

/// A file that was read back in pieces, whatever pieces, is verified as a whole: the
/// run ends as `Verified` exactly when the expected checksum, in lowercase, is the MD5
/// digest of the pieces joined, written in lowercase hexadecimal, and as
/// `ChecksumMismatch` with both checksums otherwise, the expected one as it came.
pub proof fn lemma_file_is_verified_as_a_whole(run: PipelineView, pieces: Seq<Seq<u8>>)
    requires
        run.state is Verifying,
        run.state->verification.phase == VerifyPhase::Reading,
        run.state->verification.verifier == VerifierView::empty(),
        forall|i: int| 0 <= i < pieces.len() ==> (#[trigger] pieces[i]).len() > 0,
    ensures
        ({
            let content = pieces.flatten();
            let expected = run.state->verification.expected_checksum;
            let actual = hex_encoding(md5_digest(content));
            let ended = run.after(pieces_read(pieces)).next(
                EventView::Verification(VerifyEventView::Read(Ok(Seq::empty()))),
            );
            &&& ended is Some
            &&& ended->Some_0.0.state is Done
            &&& lowered(expected) == actual ==> ended->Some_0.1.action == ActionView::Finish(
                OutcomeView::Verified { digest: actual },
            ) && ended->Some_0.0.state->status == Status::Verified
            &&& lowered(expected) != actual ==> ended->Some_0.1.action == ActionView::Finish(
                OutcomeView::ChecksumMismatch { expected, actual },
            ) && ended->Some_0.0.state->status == Status::Failed(FailureKind::ChecksumMismatch)
        }),
{
    lemma_pieces_are_joined(run, run.state->verification, pieces);
    assert(Seq::<u8>::empty() + pieces.flatten() =~= pieces.flatten());
}

/// The events of a transfer whose body is empty, from the metadata to the flush.
pub open spec fn empty_transfer(doc: DownloadLinksView) -> Seq<EventView> {
    seq![
        EventView::Metadata(Ok(doc)),
        EventView::Transfer(TransferEventView::Existence(false)),
        EventView::Transfer(TransferEventView::Opened(Ok(()))),
        EventView::Transfer(TransferEventView::DirectoryCreated(Ok(()))),
        EventView::Transfer(TransferEventView::FileCreated(Ok(()))),
        EventView::Transfer(TransferEventView::ChunkRead(Ok(None))),
        EventView::Transfer(TransferEventView::Flushed(Ok(()))),
    ]
}

/// A transfer whose body is empty ends with no chunk and no byte counted, and the run
/// goes on to verify: the empty file is then verified like any other.
pub proof fn lemma_empty_body_is_verified(
    config: ConfigurationView,
    platform: Seq<char>,
    doc: DownloadLinksView,
)
    requires
        !config.skip_verification,
        selection(doc, platform) is Ok,
    ensures
        ({
            let descriptor = selection(doc, platform)->Ok_0;
            let flushed = PipelineView::initial(config, platform).after(empty_transfer(doc));
            let opened = flushed.next(EventView::Verification(VerifyEventView::Opened(Ok(()))));
            let ended = opened->Some_0.0.next(
                EventView::Verification(VerifyEventView::Read(Ok(Seq::empty()))),
            );
            &&& flushed.state == (StateView::Verifying {
                transferred: TransferSession { bytes_transferred: 0, chunks: 0 },
                verification: VerificationView::begun(
                    descriptor.expected_checksum,
                    descriptor.expected_size,
                ),
            })
            &&& opened is Some
            &&& opened->Some_0.1.action == ActionView::Verify(VerifyActionView::Read)
            &&& ended is Some
            &&& ended->Some_0.1.action == ActionView::Finish(
                OutcomeView::of_verification(
                    verification(Seq::<u8>::empty(), descriptor.expected_checksum),
                ),
            )
        }),
{
    let events = empty_transfer(doc);
    let run0 = PipelineView::initial(config, platform);
    let run1 = run0.resumed(events[0]);
    let run2 = run1.resumed(events[1]);
    let run3 = run2.resumed(events[2]);
    let run4 = run3.resumed(events[3]);
    let run5 = run4.resumed(events[4]);
    let run6 = run5.resumed(events[5]);
    let run7 = run6.resumed(events[6]);
    let rest1 = events.drop_first();
    let rest2 = rest1.drop_first();
    let rest3 = rest2.drop_first();
    let rest4 = rest3.drop_first();
    let rest5 = rest4.drop_first();
    let rest6 = rest5.drop_first();
    let rest7 = rest6.drop_first();
    assert(rest7.len() == 0);
    assert(run7.after(rest7) == run7);
    assert(run6.after(rest6) == run7);
    assert(run5.after(rest5) == run7);
    assert(run4.after(rest4) == run7);
    assert(run3.after(rest3) == run7);
    assert(run2.after(rest2) == run7);
    assert(run1.after(rest1) == run7);
    assert(run0.after(events) == run7);
}

} // verus!
