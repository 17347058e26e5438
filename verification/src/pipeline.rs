use crate::configuration::{Configuration, ConfigurationView};
use crate::integrity::{Verification, VerificationView, VerifyAction, VerifyActionView,
    VerifyEvent, VerifyEventView, VerifyTurn, VerifyTurnView};
use crate::models::{DownloadLinks, DownloadLinksView};
use crate::notes::Note;
use crate::outcome::{FetchError, FetchErrorView, Outcome, OutcomeView, Status};
use crate::selector::{final_segment, select, selection, DownloadDescriptor,
    DownloadDescriptorView, SelectionError};
use crate::transfer::{Transfer, TransferAction, TransferActionView, TransferEvent,
    TransferEventView, TransferOutcome, TransferPhase, TransferSession, TransferTurn,
    TransferTurnView, TransferView};
use vstd::prelude::*;

verus! {

/// What the outside world answered to the action that was asked for last.
pub enum Event {
    /// The metadata document, or why there is none.
    Metadata(Result<DownloadLinks, FetchError>),
    Transfer(TransferEvent),
    Verification(VerifyEvent),
}

/// The mathematical content of an [`Event`].
pub enum EventView {
    Metadata(Result<DownloadLinksView, FetchErrorView>),
    Transfer(TransferEventView),
    Verification(VerifyEventView),
}

impl View for Event {
    type V = EventView;

    open spec fn view(&self) -> EventView {
        match self {
            Event::Metadata(Ok(doc)) => EventView::Metadata(Ok(doc@)),
            Event::Metadata(Err(error)) => EventView::Metadata(Err(error@)),
            Event::Transfer(event) => EventView::Transfer(event@),
            Event::Verification(event) => EventView::Verification(event@),
        }
    }
}

/// What the outside world is asked to do next.
#[derive(Debug, PartialEq, Eq)]
pub enum Action {
    Transfer(TransferAction),
    Verify(VerifyAction),
    /// Nothing more: the run has ended as the outcome tells.
    Finish(Outcome),
}

/// The mathematical content of an [`Action`].
pub enum ActionView {
    Transfer(TransferActionView),
    Verify(VerifyActionView),
    Finish(OutcomeView),
}

impl View for Action {
    type V = ActionView;

    open spec fn view(&self) -> ActionView {
        match self {
            Action::Transfer(action) => ActionView::Transfer(action@),
            Action::Verify(action) => ActionView::Verify(action@),
            Action::Finish(outcome) => ActionView::Finish(outcome@),
        }
    }
}

/// The answer to an event: what to do next, and what there is to tell.
#[derive(Debug, PartialEq, Eq)]
pub struct Step {
    pub action: Action,
    pub note: Option<Note>,
}

/// The mathematical content of a [`Step`].
pub struct StepView {
    pub action: ActionView,
    pub note: Option<Note>,
}

impl View for Step {
    type V = StepView;

    open spec fn view(&self) -> StepView {
        StepView { action: self.action@, note: self.note }
    }
}

/// The file that a run is about: what the metadata says of it, and the name that it is
/// kept under.
#[derive(Debug, PartialEq, Eq)]
pub struct Target {
    pub descriptor: DownloadDescriptor,
    pub file_name: String,
}

/// The mathematical content of a [`Target`].
pub struct TargetView {
    pub descriptor: DownloadDescriptorView,
    pub file_name: Seq<char>,
}

impl View for Target {
    type V = TargetView;

    open spec fn view(&self) -> TargetView {
        TargetView { descriptor: self.descriptor@, file_name: self.file_name@ }
    }
}

/// Where a run stands.
pub enum State {
    /// Nothing is known yet: the metadata document is awaited.
    Idle,
    /// The file is chosen and its transfer has begun.
    Transferring { target: Target, transfer: Transfer },
    /// The file is written; it is read back and its checksum taken.
    Verifying { transferred: TransferSession, verification: Verification },
    /// The run has ended.
    Done { status: Status, transferred: TransferSession },
}

/// The mathematical content of a [`State`].
pub enum StateView {
    Idle,
    Transferring { target: TargetView, transfer: TransferView },
    Verifying { transferred: TransferSession, verification: VerificationView },
    Done { status: Status, transferred: TransferSession },
}

impl View for State {
    type V = StateView;

    open spec fn view(&self) -> StateView {
        match self {
            State::Idle => StateView::Idle,
            State::Transferring { target, transfer } => StateView::Transferring {
                target: target@,
                transfer: transfer@,
            },
            State::Verifying { transferred, verification } => StateView::Verifying {
                transferred: *transferred,
                verification: verification@,
            },
            State::Done { status, transferred } => StateView::Done {
                status: *status,
                transferred: *transferred,
            },
        }
    }
}

/// The stages of a run, in the order in which a run passes them. A run goes from
/// `Idle` to `ExistsCheck` as soon as it has the metadata and has chosen its file, and
/// from `Transferring` to `Verifying` or `Done` as soon as the file is flushed.
#[derive(Debug, Clone, Copy, PartialEq, Eq, Structural)]
pub enum Stage {
    Idle,
    ExistsCheck,
    Transferring,
    Verifying,
    Done,
}

impl StateView {
    /// The stage that a state belongs to.
    pub open spec fn stage(self) -> Stage {
        match self {
            StateView::Idle => Stage::Idle,
            StateView::Transferring { transfer, .. } => if transfer.phase is CheckingExistence {
                Stage::ExistsCheck
            } else {
                Stage::Transferring
            },
            StateView::Verifying { .. } => Stage::Verifying,
            StateView::Done { .. } => Stage::Done,
        }
    }

    /// What the run has transferred so far.
    pub open spec fn transferred(self) -> TransferSession {
        match self {
            StateView::Idle => TransferSession { bytes_transferred: 0, chunks: 0 },
            StateView::Transferring { transfer, .. } => transfer.session,
            StateView::Verifying { transferred, .. } => transferred,
            StateView::Done { transferred, .. } => transferred,
        }
    }
}

/// A run of the download: the configuration and platform it was started with, and
/// where it stands.
pub struct Pipeline {
    config: Configuration,
    platform: String,
    state: State,
}

/// The mathematical content of a [`Pipeline`].
pub struct PipelineView {
    pub config: ConfigurationView,
    pub platform: Seq<char>,
    pub state: StateView,
}

impl View for Pipeline {
    type V = PipelineView;

    closed spec fn view(&self) -> PipelineView {
        PipelineView { config: self.config@, platform: self.platform@, state: self.state@ }
    }
}

impl PipelineView {
    /// A run that has not begun.
    pub open spec fn initial(config: ConfigurationView, platform: Seq<char>) -> PipelineView {
        PipelineView { config, platform, state: StateView::Idle }
    }

    /// The run goes on in `state` and asks for `action`.
    pub open spec fn proceeds(self, state: StateView, action: ActionView, note: Option<Note>) -> (
        PipelineView,
        StepView,
    ) {
        (
            PipelineView { config: self.config, platform: self.platform, state },
            StepView { action, note },
        )
    }

    /// The run ends with `outcome`.
    pub open spec fn finishes(self, outcome: OutcomeView) -> (PipelineView, StepView) {
        self.proceeds(
            StateView::Done { status: outcome.status(), transferred: self.state.transferred() },
            ActionView::Finish(outcome),
            None,
        )
    }

    /// What an idle run does with the metadata: it chooses the file for its platform
    /// and begins the transfer, which asks first whether the file is there.
    pub open spec fn next_idle(self, event: EventView) -> Option<(PipelineView, StepView)> {
        match event {
            EventView::Metadata(Err(error)) => Some(self.finishes(OutcomeView::FetchFailed(error))),
            EventView::Metadata(Ok(doc)) => match selection(doc, self.platform) {
                Err(error) => Some(self.finishes(OutcomeView::SelectionFailed(error))),
                Ok(descriptor) => {
                    let file_name = final_segment(descriptor.resource_locator);
                    let transfer = TransferView::begun(
                        descriptor.resource_locator,
                        descriptor.expected_size,
                        file_name,
                        self.config.download_path,
                        self.config.overwrite,
                    );
                    Some(
                        self.proceeds(
                            StateView::Transferring {
                                target: TargetView { descriptor, file_name },
                                transfer,
                            },
                            ActionView::Transfer(transfer.first_action()),
                            None,
                        ),
                    )
                },
            },
            _ => None,
        }
    }

    /// What a run does when its transfer is complete: it ends, where the checksum is
    /// not to be tested, or begins the verification.
    pub open spec fn transfer_completed(
        config: ConfigurationView,
        platform: Seq<char>,
        target: TargetView,
        session: TransferSession,
    ) -> (PipelineView, StepView) {
        if config.skip_verification {
            (
                PipelineView {
                    config,
                    platform,
                    state: StateView::Done { status: Status::Unverified, transferred: session },
                },
                StepView { action: ActionView::Finish(OutcomeView::Unverified), note: None },
            )
        } else {
            (
                PipelineView {
                    config,
                    platform,
                    state: StateView::Verifying {
                        transferred: session,
                        verification: VerificationView::begun(
                            target.descriptor.expected_checksum,
                            target.descriptor.expected_size,
                        ),
                    },
                },
                StepView {
                    action: ActionView::Verify(
                        VerifyActionView::Open {
                            directory: config.download_path,
                            file_name: target.file_name,
                        },
                    ),
                    note: None,
                },
            )
        }
    }

    /// What a transferring run does: it goes as its transfer goes, and ends where the
    /// transfer fails or leaves the file alone.
    pub open spec fn next_transferring(
        self,
        target: TargetView,
        transfer: TransferView,
        event: EventView,
    ) -> Option<(PipelineView, StepView)> {
        match event {
            EventView::Transfer(event) => match transfer.next(event) {
                TransferTurnView::Continue { transfer: moved, action, note } => Some(
                    self.proceeds(
                        StateView::Transferring { target, transfer: moved },
                        ActionView::Transfer(action),
                        note,
                    ),
                ),
                TransferTurnView::Finished(Ok(TransferOutcome::SkippedExisting)) => Some(
                    self.finishes(OutcomeView::SkippedExisting),
                ),
                TransferTurnView::Finished(Ok(TransferOutcome::Completed(session))) => Some(
                    Self::transfer_completed(self.config, self.platform, target, session),
                ),
                TransferTurnView::Finished(Err(error)) => Some(
                    self.finishes(OutcomeView::TransferFailed(error)),
                ),
                TransferTurnView::Ignored(_) => None,
            },
            _ => None,
        }
    }

    /// What a verifying run does: it goes as its verification goes, and ends with what
    /// the verification gives.
    pub open spec fn next_verifying(
        self,
        transferred: TransferSession,
        verification: VerificationView,
        event: EventView,
    ) -> Option<(PipelineView, StepView)> {
        match event {
            EventView::Verification(event) => match verification.next(event) {
                VerifyTurnView::Continue { verification: moved, action, note } => Some(
                    self.proceeds(
                        StateView::Verifying { transferred, verification: moved },
                        ActionView::Verify(action),
                        note,
                    ),
                ),
                VerifyTurnView::Finished(Ok(result)) => Some(
                    self.finishes(OutcomeView::of_verification(result)),
                ),
                VerifyTurnView::Finished(Err(error)) => Some(
                    self.finishes(OutcomeView::VerificationFailed(error)),
                ),
                VerifyTurnView::Ignored(_) => None,
            },
            _ => None,
        }
    }

    /// What a run does with an event: where it stands afterwards and what it asks for,
    /// or `None` where the event answers nothing that the run has asked for.
    pub open spec fn next(self, event: EventView) -> Option<(PipelineView, StepView)> {
        match self.state {
            StateView::Idle => self.next_idle(event),
            StateView::Transferring { target, transfer } => self.next_transferring(
                target,
                transfer,
                event,
            ),
            StateView::Verifying { transferred, verification } => self.next_verifying(
                transferred,
                verification,
                event,
            ),
            StateView::Done { .. } => None,
        }
    }

    /// Where the run stands after `event`: an event that answers nothing leaves it as
    /// it is.
    pub open spec fn resumed(self, event: EventView) -> PipelineView {
        match self.next(event) {
            Some((then, _)) => then,
            None => self,
        }
    }

    /// Where the run stands after `events`, taken in their order.
    pub open spec fn after(self, events: Seq<EventView>) -> PipelineView
        decreases events.len(),
    {
        if events.len() == 0 {
            self
        } else {
            self.resumed(events.first()).after(events.drop_first())
        }
    }
}

/// Whether `after` and `reply` are what `expected` asks of a run that was `before`: the
/// run and step that it names, or the run unchanged and no step.
pub open spec fn answers(
    before: PipelineView,
    expected: Option<(PipelineView, StepView)>,
    after: PipelineView,
    reply: Option<Step>,
) -> bool {
    match expected {
        Some((then, step)) => after == then && reply is Some && reply->Some_0@ == step,
        None => after == before && reply is None,
    }
}

impl Pipeline {
    /// A run that has not begun: it awaits the metadata document.
    pub fn new(config: Configuration, platform: String) -> (pipeline: Self)
        ensures
            pipeline@ == PipelineView::initial(config@, platform@),
    {
        Pipeline { config, platform, state: State::Idle }
    }

    /// The stage that the run is in.
    pub fn stage(&self) -> (stage: Stage)
        ensures
            stage == self@.state.stage(),
    {
        match &self.state {
            State::Idle => Stage::Idle,
            State::Transferring { transfer, .. } => match transfer.phase() {
                TransferPhase::CheckingExistence => Stage::ExistsCheck,
                _ => Stage::Transferring,
            },
            State::Verifying { .. } => Stage::Verifying,
            State::Done { .. } => Stage::Done,
        }
    }

    /// How the run has ended, or `None` while it has not.
    pub fn status(&self) -> (status: Option<Status>)
        ensures
            status == match self@.state {
                StateView::Done { status, .. } => Some(status),
                _ => None,
            },
    {
        match &self.state {
            State::Done { status, .. } => Some(*status),
            _ => None,
        }
    }

    /// What the run has transferred so far.
    pub fn session(&self) -> (session: TransferSession)
        ensures
            session == self@.state.transferred(),
    {
        match &self.state {
            State::Idle => TransferSession::new(),
            State::Transferring { transfer, .. } => transfer.session(),
            State::Verifying { transferred, .. } => *transferred,
            State::Done { transferred, .. } => *transferred,
        }
    }

    /// Where the run stands, with the file that it is about.
    pub fn state(&self) -> (state: &State)
        ensures
            state@ == self@.state,
    {
        &self.state
    }

    /// The configuration that the run was started with.
    pub fn config(&self) -> (config: &Configuration)
        ensures
            config@ == self@.config,
    {
        &self.config
    }

    /// The platform whose offering the run takes.
    pub fn platform(&self) -> (platform: &str)
        ensures
            platform@ == self@.platform,
    {
        self.platform.as_str()
    }

    fn finish(
        config: Configuration,
        platform: String,
        transferred: TransferSession,
        outcome: Outcome,
    ) -> (result: (Pipeline, Option<Step>))
        ensures
            result.0@ == (PipelineView {
                config: config@,
                platform: platform@,
                state: StateView::Done { status: outcome@.status(), transferred },
            }),
            result.1 is Some,
            result.1->Some_0@ == (StepView { action: ActionView::Finish(outcome@), note: None }),
    {
        let status = outcome.status();
        (
            Pipeline { config, platform, state: State::Done { status, transferred } },
            Some(Step { action: Action::Finish(outcome), note: None }),
        )
    }

    fn step_idle(config: Configuration, platform: String, event: Event) -> (result: (
        Pipeline,
        Option<Step>,
    ))
        ensures
            ({
                let before = PipelineView {
                    config: config@,
                    platform: platform@,
                    state: StateView::Idle,
                };
                answers(before, before.next_idle(event@), result.0@, result.1)
            }),
    {
        let nothing = TransferSession::new();
        match event {
            Event::Metadata(Err(error)) => Self::finish(
                config,
                platform,
                nothing,
                Outcome::FetchFailed(error),
            ),
            Event::Metadata(Ok(doc)) => match select(&doc, platform.as_str()) {
                Err(error) => Self::finish(
                    config,
                    platform,
                    nothing,
                    Outcome::SelectionFailed(error),
                ),
                Ok(descriptor) => match descriptor.file_name() {
                    None => Self::finish(
                        config,
                        platform,
                        nothing,
                        Outcome::SelectionFailed(
                            SelectionError::MalformedLocator {
                                locator: descriptor.resource_locator,
                            },
                        ),
                    ),
                    Some(file_name) => {
                        let (transfer, first) = Transfer::begin(
                            &descriptor,
                            file_name.clone(),
                            config.download_path.clone(),
                            config.overwrite,
                        );
                        let state = State::Transferring {
                            target: Target { descriptor, file_name },
                            transfer,
                        };
                        (
                            Pipeline { config, platform, state },
                            Some(Step { action: Action::Transfer(first), note: None }),
                        )
                    },
                },
            },
            _ => (Pipeline { config, platform, state: State::Idle }, None),
        }
    }

    fn transfer_completed(
        config: Configuration,
        platform: String,
        target: Target,
        session: TransferSession,
    ) -> (result: (Pipeline, Option<Step>))
        ensures
            ({
                let expected = PipelineView::transfer_completed(
                    config@,
                    platform@,
                    target@,
                    session,
                );
                result.0@ == expected.0 && result.1 is Some && result.1->Some_0@ == expected.1
            }),
    {
        if config.skip_verification {
            Self::finish(config, platform, session, Outcome::Unverified)
        } else {
            let Target { descriptor, file_name } = target;
            let (verification, first) = Verification::begin(
                config.download_path.clone(),
                file_name,
                descriptor.expected_checksum,
                descriptor.expected_size,
            );
            let state = State::Verifying { transferred: session, verification };
            (
                Pipeline { config, platform, state },
                Some(Step { action: Action::Verify(first), note: None }),
            )
        }
    }

    fn step_transferring(
        config: Configuration,
        platform: String,
        target: Target,
        transfer: Transfer,
        event: Event,
    ) -> (result: (Pipeline, Option<Step>))
        ensures
            ({
                let before = PipelineView {
                    config: config@,
                    platform: platform@,
                    state: StateView::Transferring { target: target@, transfer: transfer@ },
                };
                answers(
                    before,
                    before.next_transferring(target@, transfer@, event@),
                    result.0@,
                    result.1,
                )
            }),
    {
        match event {
            Event::Transfer(event) => {
                let so_far = transfer.session();
                match transfer.step(event) {
                    TransferTurn::Continue { transfer, action, note } => (
                        Pipeline {
                            config,
                            platform,
                            state: State::Transferring { target, transfer },
                        },
                        Some(Step { action: Action::Transfer(action), note }),
                    ),
                    TransferTurn::Finished(Ok(TransferOutcome::SkippedExisting)) => Self::finish(
                        config,
                        platform,
                        so_far,
                        Outcome::SkippedExisting,
                    ),
                    TransferTurn::Finished(Ok(TransferOutcome::Completed(session))) => {
                        Self::transfer_completed(config, platform, target, session)
                    },
                    TransferTurn::Finished(Err(error)) => Self::finish(
                        config,
                        platform,
                        so_far,
                        Outcome::TransferFailed(error),
                    ),
                    TransferTurn::Ignored(transfer) => (
                        Pipeline {
                            config,
                            platform,
                            state: State::Transferring { target, transfer },
                        },
                        None,
                    ),
                }
            },
            _ => (
                Pipeline { config, platform, state: State::Transferring { target, transfer } },
                None,
            ),
        }
    }

    fn step_verifying(
        config: Configuration,
        platform: String,
        transferred: TransferSession,
        verification: Verification,
        event: Event,
    ) -> (result: (Pipeline, Option<Step>))
        ensures
            ({
                let before = PipelineView {
                    config: config@,
                    platform: platform@,
                    state: StateView::Verifying { transferred, verification: verification@ },
                };
                answers(
                    before,
                    before.next_verifying(transferred, verification@, event@),
                    result.0@,
                    result.1,
                )
            }),
    {
        match event {
            Event::Verification(event) => match verification.step(event) {
                VerifyTurn::Continue { verification, action, note } => (
                    Pipeline {
                        config,
                        platform,
                        state: State::Verifying { transferred, verification },
                    },
                    Some(Step { action: Action::Verify(action), note }),
                ),
                VerifyTurn::Finished(Ok(result)) => Self::finish(
                    config,
                    platform,
                    transferred,
                    Outcome::of_verification(result),
                ),
                VerifyTurn::Finished(Err(error)) => Self::finish(
                    config,
                    platform,
                    transferred,
                    Outcome::VerificationFailed(error),
                ),
                VerifyTurn::Ignored(verification) => (
                    Pipeline {
                        config,
                        platform,
                        state: State::Verifying { transferred, verification },
                    },
                    None,
                ),
            },
            _ => (
                Pipeline { config, platform, state: State::Verifying { transferred, verification } },
                None,
            ),
        }
    }

    /// Takes the answer to the action that was asked for last, and says what to do next.
    ///
    /// The run that comes back and the step are those that `next` names. An event that
    /// answers nothing that the run has asked for changes nothing and gets no step; so
    /// does any event once the run has ended.
    pub fn step(self, event: Event) -> (result: (Pipeline, Option<Step>))
        ensures
            answers(self@, self@.next(event@), result.0@, result.1),
    {
        let Pipeline { config, platform, state } = self;
        match state {
            State::Idle => Self::step_idle(config, platform, event),
            State::Transferring { target, transfer } => Self::step_transferring(
                config,
                platform,
                target,
                transfer,
                event,
            ),
            State::Verifying { transferred, verification } => Self::step_verifying(
                config,
                platform,
                transferred,
                verification,
                event,
            ),
            State::Done { status, transferred } => (
                Pipeline { config, platform, state: State::Done { status, transferred } },
                None,
            ),
        }
    }
}

} // verus!
