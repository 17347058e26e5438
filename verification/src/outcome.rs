use crate::integrity::{VerificationResult, VerificationResultView, VerifyError, VerifyErrorView};
use crate::selector::{SelectionError, SelectionErrorView};
use crate::transfer::{TransferError, TransferErrorView};
use vstd::prelude::*;

verus! {

/// The ways in which a run can fail, each with an exit code of its own.
#[derive(Debug, Clone, Copy, PartialEq, Eq, Structural)]
pub enum FailureKind {
    MetadataTransport,
    MetadataDecode,
    PlatformNotFound,
    MalformedLocator,
    TransferOpen,
    DirectoryCreation,
    FileCreation,
    ChunkWrite,
    ChunkRead,
    Flush,
    VerificationOpen,
    VerificationRead,
    ChecksumMismatch,
}

/// The exit code that stands for a kind of failure.
pub open spec fn failure_code(kind: FailureKind) -> u8 {
    match kind {
        FailureKind::MetadataTransport => 1,
        FailureKind::MetadataDecode => 2,
        FailureKind::PlatformNotFound => 3,
        FailureKind::MalformedLocator => 4,
        FailureKind::TransferOpen => 5,
        FailureKind::DirectoryCreation => 6,
        FailureKind::FileCreation => 7,
        FailureKind::ChunkWrite => 9,
        FailureKind::ChunkRead => 10,
        FailureKind::Flush => 11,
        FailureKind::VerificationOpen => 13,
        FailureKind::VerificationRead => 14,
        FailureKind::ChecksumMismatch => 15,
    }
}

impl FailureKind {
    /// The exit code that stands for this kind of failure.
    pub fn code(self) -> (code: u8)
        ensures
            code == failure_code(self),
    {
        match self {
            FailureKind::MetadataTransport => 1,
            FailureKind::MetadataDecode => 2,
            FailureKind::PlatformNotFound => 3,
            FailureKind::MalformedLocator => 4,
            FailureKind::TransferOpen => 5,
            FailureKind::DirectoryCreation => 6,
            FailureKind::FileCreation => 7,
            FailureKind::ChunkWrite => 9,
            FailureKind::ChunkRead => 10,
            FailureKind::Flush => 11,
            FailureKind::VerificationOpen => 13,
            FailureKind::VerificationRead => 14,
            FailureKind::ChecksumMismatch => 15,
        }
    }
}

/// The families that the kinds of failure fall into.
#[derive(Debug, Clone, Copy, PartialEq, Eq, Structural)]
pub enum FailureClass {
    /// The network did not deliver.
    Transport,
    /// The remote answer was not what it should be.
    Decode,
    /// The remote answer has nothing that can be fetched for the platform.
    Selection,
    /// The local file system refused.
    Io,
    /// The file is not the one that was expected.
    Integrity,
}

/// The family that a kind of failure falls into.
pub open spec fn failure_class(kind: FailureKind) -> FailureClass {
    match kind {
        FailureKind::MetadataTransport => FailureClass::Transport,
        FailureKind::MetadataDecode => FailureClass::Decode,
        FailureKind::PlatformNotFound => FailureClass::Selection,
        FailureKind::MalformedLocator => FailureClass::Selection,
        FailureKind::TransferOpen => FailureClass::Transport,
        FailureKind::DirectoryCreation => FailureClass::Io,
        FailureKind::FileCreation => FailureClass::Io,
        FailureKind::ChunkWrite => FailureClass::Io,
        FailureKind::ChunkRead => FailureClass::Transport,
        FailureKind::Flush => FailureClass::Io,
        FailureKind::VerificationOpen => FailureClass::Io,
        FailureKind::VerificationRead => FailureClass::Io,
        FailureKind::ChecksumMismatch => FailureClass::Integrity,
    }
}

impl FailureKind {
    /// The family that this kind of failure falls into.
    pub fn class(self) -> (class: FailureClass)
        ensures
            class == failure_class(self),
    {
        match self {
            FailureKind::MetadataTransport | FailureKind::TransferOpen | FailureKind::ChunkRead => {
                FailureClass::Transport
            },
            FailureKind::MetadataDecode => FailureClass::Decode,
            FailureKind::PlatformNotFound | FailureKind::MalformedLocator => {
                FailureClass::Selection
            },
            FailureKind::ChecksumMismatch => FailureClass::Integrity,
            _ => FailureClass::Io,
        }
    }
}

/// No failure has the code of success, and no two kinds of failure share a code.
pub proof fn lemma_failure_codes_distinct(first: FailureKind, second: FailureKind)
    ensures
        failure_code(first) != 0,
        failure_code(first) == failure_code(second) ==> first == second,
{
}

/// Why the metadata document could not be had; each carries the cause in words.
#[derive(Debug, PartialEq, Eq)]
pub enum FetchError {
    /// The request did not come through.
    Transport(String),
    /// The answer was not a metadata document.
    Decode(String),
}

/// The mathematical content of a [`FetchError`].
pub enum FetchErrorView {
    Transport(Seq<char>),
    Decode(Seq<char>),
}

impl View for FetchError {
    type V = FetchErrorView;

    open spec fn view(&self) -> FetchErrorView {
        match self {
            FetchError::Transport(cause) => FetchErrorView::Transport(cause@),
            FetchError::Decode(cause) => FetchErrorView::Decode(cause@),
        }
    }
}

impl FetchErrorView {
    /// The kind of failure that this error makes of a run.
    pub open spec fn kind(self) -> FailureKind {
        match self {
            FetchErrorView::Transport(_) => FailureKind::MetadataTransport,
            FetchErrorView::Decode(_) => FailureKind::MetadataDecode,
        }
    }
}

impl FetchError {
    /// The kind of failure that this error makes of a run.
    pub fn kind(&self) -> (kind: FailureKind)
        ensures
            kind == self@.kind(),
    {
        match self {
            FetchError::Transport(_) => FailureKind::MetadataTransport,
            FetchError::Decode(_) => FailureKind::MetadataDecode,
        }
    }
}

/// How a run stands once it has ended: one of three successes, or a kind of failure.
#[derive(Debug, Clone, Copy, PartialEq, Eq, Structural)]
pub enum Status {
    /// The file was fetched and has the expected checksum.
    Verified,
    /// The file was there already and was left as it is.
    SkippedExisting,
    /// The file was fetched; its checksum was not tested.
    Unverified,
    Failed(FailureKind),
}

/// The exit code of a status: 0 for every success, the failure's code otherwise.
pub open spec fn status_code(status: Status) -> u8 {
    match status {
        Status::Failed(kind) => failure_code(kind),
        _ => 0,
    }
}

impl Status {
    /// Whether the run did what was asked of it.
    pub fn is_success(self) -> (success: bool)
        ensures
            success == !(self is Failed),
            success == (status_code(self) == 0),
    {
        match self {
            Status::Failed(_) => false,
            _ => true,
        }
    }

    /// The exit code of the status: 0 for every success, the failure's code otherwise.
    pub fn exit_code(self) -> (code: u8)
        ensures
            code == status_code(self),
    {
        match self {
            Status::Failed(kind) => kind.code(),
            _ => 0,
        }
    }
}

/// Two statuses with one exit code are both successes or failures of one kind.
pub proof fn lemma_exit_code_tells_status(first: Status, second: Status)
    requires
        status_code(first) == status_code(second),
    ensures
        first is Failed <==> second is Failed,
        first is Failed ==> first == second,
        status_code(first) == 0 <==> !(first is Failed),
{
}

/// How a run ended, with what there is to tell of it.
#[derive(Debug, PartialEq, Eq)]
pub enum Outcome {
    /// The file was fetched and its checksum, `digest`, is the expected one.
    Verified { digest: String },
    /// The file was there already and was left as it is.
    SkippedExisting,
    /// The file was fetched; its checksum was not tested.
    Unverified,
    FetchFailed(FetchError),
    SelectionFailed(SelectionError),
    TransferFailed(TransferError),
    VerificationFailed(VerifyError),
    /// The file was fetched and its checksum, `actual`, is not the expected one.
    ChecksumMismatch { expected: String, actual: String },
}

/// The mathematical content of an [`Outcome`].
pub enum OutcomeView {
    Verified { digest: Seq<char> },
    SkippedExisting,
    Unverified,
    FetchFailed(FetchErrorView),
    SelectionFailed(SelectionErrorView),
    TransferFailed(TransferErrorView),
    VerificationFailed(VerifyErrorView),
    ChecksumMismatch { expected: Seq<char>, actual: Seq<char> },
}

impl View for Outcome {
    type V = OutcomeView;

    open spec fn view(&self) -> OutcomeView {
        match self {
            Outcome::Verified { digest } => OutcomeView::Verified { digest: digest@ },
            Outcome::SkippedExisting => OutcomeView::SkippedExisting,
            Outcome::Unverified => OutcomeView::Unverified,
            Outcome::FetchFailed(error) => OutcomeView::FetchFailed(error@),
            Outcome::SelectionFailed(error) => OutcomeView::SelectionFailed(error@),
            Outcome::TransferFailed(error) => OutcomeView::TransferFailed(error@),
            Outcome::VerificationFailed(error) => OutcomeView::VerificationFailed(error@),
            Outcome::ChecksumMismatch { expected, actual } => OutcomeView::ChecksumMismatch {
                expected: expected@,
                actual: actual@,
            },
        }
    }
}

impl OutcomeView {
    /// The outcome that the result of a verification makes of a run.
    pub open spec fn of_verification(result: VerificationResultView) -> OutcomeView {
        match result {
            VerificationResultView::Match { digest } => OutcomeView::Verified { digest },
            VerificationResultView::Mismatch { expected, actual } => OutcomeView::ChecksumMismatch {
                expected,
                actual,
            },
        }
    }

    /// The status that the outcome leaves the run in.
    pub open spec fn status(self) -> Status {
        match self {
            OutcomeView::Verified { .. } => Status::Verified,
            OutcomeView::SkippedExisting => Status::SkippedExisting,
            OutcomeView::Unverified => Status::Unverified,
            OutcomeView::FetchFailed(error) => Status::Failed(error.kind()),
            OutcomeView::SelectionFailed(error) => Status::Failed(error.kind()),
            OutcomeView::TransferFailed(error) => Status::Failed(error.kind()),
            OutcomeView::VerificationFailed(error) => Status::Failed(error.kind()),
            OutcomeView::ChecksumMismatch { .. } => Status::Failed(FailureKind::ChecksumMismatch),
        }
    }
}

impl Outcome {
    /// The outcome that the result of a verification makes of a run.
    pub fn of_verification(result: VerificationResult) -> (outcome: Outcome)
        ensures
            outcome@ == OutcomeView::of_verification(result@),
    {
        match result {
            VerificationResult::Match { digest } => Outcome::Verified { digest },
            VerificationResult::Mismatch { expected, actual } => Outcome::ChecksumMismatch {
                expected,
                actual,
            },
        }
    }

    /// The status that the outcome leaves the run in.
    pub fn status(&self) -> (status: Status)
        ensures
            status == self@.status(),
    {
        match self {
            Outcome::Verified { .. } => Status::Verified,
            Outcome::SkippedExisting => Status::SkippedExisting,
            Outcome::Unverified => Status::Unverified,
            Outcome::FetchFailed(error) => Status::Failed(error.kind()),
            Outcome::SelectionFailed(error) => Status::Failed(error.kind()),
            Outcome::TransferFailed(error) => Status::Failed(error.kind()),
            Outcome::VerificationFailed(error) => Status::Failed(error.kind()),
            Outcome::ChecksumMismatch { .. } => Status::Failed(FailureKind::ChecksumMismatch),
        }
    }

    /// Whether the run did what was asked of it.
    pub fn is_success(&self) -> (success: bool)
        ensures
            success == !(self@.status() is Failed),
    {
        self.status().is_success()
    }

    /// The exit code of the outcome: 0 for every success, the failure's code otherwise.
    pub fn exit_code(&self) -> (code: u8)
        ensures
            code == status_code(self@.status()),
    {
        self.status().exit_code()
    }
}

} // verus!
