use crate::notes::Note;
use crate::outcome::FailureKind;
use crate::selector::DownloadDescriptor;
use vstd::prelude::*;

verus! {

/// What is done about a file that may be there already.
#[derive(Debug, Clone, Copy, PartialEq, Eq, Structural)]
pub enum Admission {
    /// The file is there and stays: nothing is fetched.
    Skip,
    /// The file is fetched; `replacing` says that it takes the place of one that is there.
    Proceed { replacing: bool },
}

/// A file that is there is left alone unless it may be overwritten; any other is fetched.
pub open spec fn admission(present: bool, overwrite: bool) -> Admission {
    if present && !overwrite {
        Admission::Skip
    } else {
        Admission::Proceed { replacing: present }
    }
}

/// Decides, before anything is asked of the network, whether the file is fetched.
pub fn decide_admission(present: bool, overwrite: bool) -> (decision: Admission)
    ensures
        decision == admission(present, overwrite),
{
    if present && !overwrite {
        Admission::Skip
    } else {
        Admission::Proceed { replacing: present }
    }
}

/// A counter moved on by `by`; it stays at the largest value once it has reached it.
pub open spec fn advance(position: u64, by: nat) -> u64 {
    if position + by <= u64::MAX {
        (position + by) as u64
    } else {
        u64::MAX
    }
}

/// Moves a counter on by the length of a chunk.
pub fn advance_by(position: u64, length: usize) -> (moved: u64)
    ensures
        moved == advance(position, length as nat),
{
    position.saturating_add(length as u64)
}

/// What one transfer has moved so far.
#[derive(Debug, Clone, Copy, PartialEq, Eq, Structural)]
pub struct TransferSession {
    /// The bytes written to the file.
    pub bytes_transferred: u64,
    /// The chunks written to the file.
    pub chunks: u64,
}

impl TransferSession {
    /// A session that has moved nothing.
    pub fn new() -> (session: Self)
        ensures
            session == (TransferSession { bytes_transferred: 0, chunks: 0 }),
    {
        TransferSession { bytes_transferred: 0, chunks: 0 }
    }

    /// The session after one more chunk of `length` bytes.
    pub open spec fn recorded(self, length: nat) -> TransferSession {
        TransferSession {
            bytes_transferred: advance(self.bytes_transferred, length),
            chunks: advance(self.chunks, 1),
        }
    }

    /// Counts one more chunk of `length` bytes.
    pub fn record(&mut self, length: usize)
        ensures
            *final(self) == old(self).recorded(length as nat),
    {
        self.bytes_transferred = advance_by(self.bytes_transferred, length);
        self.chunks = self.chunks.saturating_add(1);
    }
}

/// The mathematical content of an answer that is either "done" or a cause in words.
pub open spec fn answer_view(answer: Result<(), String>) -> Result<(), Seq<char>> {
    match answer {
        Ok(_) => Ok(()),
        Err(cause) => Err(cause@),
    }
}

/// How a transfer ended where nothing failed.
#[derive(Debug, Clone, Copy, PartialEq, Eq, Structural)]
pub enum TransferOutcome {
    /// The file was there already and was left as it is: nothing was asked of the
    /// network.
    SkippedExisting,
    /// The body was written to the file and the file was flushed.
    Completed(TransferSession),
}

/// What the outside world answered to the action that a transfer asked for last.
#[derive(Debug, PartialEq, Eq)]
pub enum TransferEvent {
    /// Whether the file is there already.
    Existence(bool),
    Opened(Result<(), String>),
    DirectoryCreated(Result<(), String>),
    FileCreated(Result<(), String>),
    /// The next chunk of the body; `None` where the body has ended.
    ChunkRead(Result<Option<Vec<u8>>, String>),
    /// `Ok` says that every byte of the chunk that was handed out is in the file: the
    /// whole chunk is then counted. A write that took only a part of the chunk is no
    /// `Ok`.
    ChunkWritten(Result<(), String>),
    Flushed(Result<(), String>),
}

/// The mathematical content of a [`TransferEvent`].
pub enum TransferEventView {
    Existence(bool),
    Opened(Result<(), Seq<char>>),
    DirectoryCreated(Result<(), Seq<char>>),
    FileCreated(Result<(), Seq<char>>),
    ChunkRead(Result<Option<Seq<u8>>, Seq<char>>),
    ChunkWritten(Result<(), Seq<char>>),
    Flushed(Result<(), Seq<char>>),
}

impl View for TransferEvent {
    type V = TransferEventView;

    open spec fn view(&self) -> TransferEventView {
        match self {
            TransferEvent::Existence(present) => TransferEventView::Existence(*present),
            TransferEvent::Opened(answer) => TransferEventView::Opened(answer_view(*answer)),
            TransferEvent::DirectoryCreated(answer) => TransferEventView::DirectoryCreated(
                answer_view(*answer),
            ),
            TransferEvent::FileCreated(answer) => TransferEventView::FileCreated(
                answer_view(*answer),
            ),
            TransferEvent::ChunkRead(Ok(Some(bytes))) => TransferEventView::ChunkRead(
                Ok(Some(bytes@)),
            ),
            TransferEvent::ChunkRead(Ok(None)) => TransferEventView::ChunkRead(Ok(None)),
            TransferEvent::ChunkRead(Err(cause)) => TransferEventView::ChunkRead(Err(cause@)),
            TransferEvent::ChunkWritten(answer) => TransferEventView::ChunkWritten(
                answer_view(*answer),
            ),
            TransferEvent::Flushed(answer) => TransferEventView::Flushed(answer_view(*answer)),
        }
    }
}

/// What a transfer asks the outside world to do next.
#[derive(Debug, PartialEq, Eq)]
pub enum TransferAction {
    /// Tell whether `file_name` is there in `directory`.
    CheckExistence { directory: String, file_name: String },
    /// Open a streaming read of `locator`.
    Open { locator: String },
    /// Make sure that `directory` is there, with all that leads to it.
    CreateDirectory { directory: String },
    /// Create `file_name` in `directory` for writing; a file that is there is emptied.
    CreateFile { directory: String, file_name: String },
    /// Read the next chunk of the body.
    ReadChunk,
    /// Write all of `bytes` to the end of the file, every byte of them: the answer is
    /// `Ok` only when none is left unwritten.
    WriteChunk { bytes: Vec<u8> },
    /// Have all that was written committed to storage, and close the file.
    Flush,
}

/// The mathematical content of a [`TransferAction`].
pub enum TransferActionView {
    CheckExistence { directory: Seq<char>, file_name: Seq<char> },
    Open { locator: Seq<char> },
    CreateDirectory { directory: Seq<char> },
    CreateFile { directory: Seq<char>, file_name: Seq<char> },
    ReadChunk,
    WriteChunk { bytes: Seq<u8> },
    Flush,
}

impl View for TransferAction {
    type V = TransferActionView;

    open spec fn view(&self) -> TransferActionView {
        match self {
            TransferAction::CheckExistence { directory, file_name } => {
                TransferActionView::CheckExistence { directory: directory@, file_name: file_name@ }
            },
            TransferAction::Open { locator } => TransferActionView::Open { locator: locator@ },
            TransferAction::CreateDirectory { directory } => TransferActionView::CreateDirectory {
                directory: directory@,
            },
            TransferAction::CreateFile { directory, file_name } => TransferActionView::CreateFile {
                directory: directory@,
                file_name: file_name@,
            },
            TransferAction::ReadChunk => TransferActionView::ReadChunk,
            TransferAction::WriteChunk { bytes } => TransferActionView::WriteChunk { bytes: bytes@ },
            TransferAction::Flush => TransferActionView::Flush,
        }
    }
}

/// Where a transfer stands: what was asked for last and is awaited.
#[derive(Debug, Clone, Copy, PartialEq, Eq)]
pub enum TransferPhase {
    CheckingExistence,
    Opening,
    CreatingDirectory,
    CreatingFile,
    Reading,
    /// A chunk of `pending` bytes is being written.
    Writing { pending: usize },
    Flushing,
}

/// The mathematical content of a [`TransferPhase`].
pub enum TransferPhaseView {
    CheckingExistence,
    Opening,
    CreatingDirectory,
    CreatingFile,
    Reading,
    Writing { pending: nat },
    Flushing,
}

impl View for TransferPhase {
    type V = TransferPhaseView;

    open spec fn view(&self) -> TransferPhaseView {
        match self {
            TransferPhase::CheckingExistence => TransferPhaseView::CheckingExistence,
            TransferPhase::Opening => TransferPhaseView::Opening,
            TransferPhase::CreatingDirectory => TransferPhaseView::CreatingDirectory,
            TransferPhase::CreatingFile => TransferPhaseView::CreatingFile,
            TransferPhase::Reading => TransferPhaseView::Reading,
            TransferPhase::Writing { pending } => TransferPhaseView::Writing {
                pending: *pending as nat,
            },
            TransferPhase::Flushing => TransferPhaseView::Flushing,
        }
    }
}

/// Why a transfer ended early; each carries the cause in words.
#[derive(Debug, PartialEq, Eq)]
pub enum TransferError {
    Open(String),
    CreateDirectory(String),
    CreateFile(String),
    Write(String),
    Read(String),
    Sync(String),
}

/// The mathematical content of a [`TransferError`].
pub enum TransferErrorView {
    Open(Seq<char>),
    CreateDirectory(Seq<char>),
    CreateFile(Seq<char>),
    Write(Seq<char>),
    Read(Seq<char>),
    Sync(Seq<char>),
}

impl View for TransferError {
    type V = TransferErrorView;

    open spec fn view(&self) -> TransferErrorView {
        match self {
            TransferError::Open(cause) => TransferErrorView::Open(cause@),
            TransferError::CreateDirectory(cause) => TransferErrorView::CreateDirectory(cause@),
            TransferError::CreateFile(cause) => TransferErrorView::CreateFile(cause@),
            TransferError::Write(cause) => TransferErrorView::Write(cause@),
            TransferError::Read(cause) => TransferErrorView::Read(cause@),
            TransferError::Sync(cause) => TransferErrorView::Sync(cause@),
        }
    }
}

impl TransferErrorView {
    /// The kind of failure that this error makes of a run.
    pub open spec fn kind(self) -> FailureKind {
        match self {
            TransferErrorView::Open(_) => FailureKind::TransferOpen,
            TransferErrorView::CreateDirectory(_) => FailureKind::DirectoryCreation,
            TransferErrorView::CreateFile(_) => FailureKind::FileCreation,
            TransferErrorView::Write(_) => FailureKind::ChunkWrite,
            TransferErrorView::Read(_) => FailureKind::ChunkRead,
            TransferErrorView::Sync(_) => FailureKind::Flush,
        }
    }
}

impl TransferError {
    /// The kind of failure that this error makes of a run.
    pub fn kind(&self) -> (kind: FailureKind)
        ensures
            kind == self@.kind(),
    {
        match self {
            TransferError::Open(_) => FailureKind::TransferOpen,
            TransferError::CreateDirectory(_) => FailureKind::DirectoryCreation,
            TransferError::CreateFile(_) => FailureKind::FileCreation,
            TransferError::Write(_) => FailureKind::ChunkWrite,
            TransferError::Read(_) => FailureKind::ChunkRead,
            TransferError::Sync(_) => FailureKind::Flush,
        }
    }
}

/// One download on its way: where it comes from and goes to, where it stands, and what
/// it has moved so far. It lives from `begin` to the turn that finishes it.
#[derive(Debug, PartialEq, Eq)]
pub struct Transfer {
    locator: String,
    expected_size: u64,
    directory: String,
    file_name: String,
    overwrite: bool,
    phase: TransferPhase,
    session: TransferSession,
}

/// The mathematical content of a [`Transfer`].
pub struct TransferView {
    pub locator: Seq<char>,
    pub expected_size: u64,
    pub directory: Seq<char>,
    pub file_name: Seq<char>,
    pub overwrite: bool,
    pub phase: TransferPhaseView,
    pub session: TransferSession,
}

impl View for Transfer {
    type V = TransferView;

    closed spec fn view(&self) -> TransferView {
        TransferView {
            locator: self.locator@,
            expected_size: self.expected_size,
            directory: self.directory@,
            file_name: self.file_name@,
            overwrite: self.overwrite,
            phase: self.phase@,
            session: self.session,
        }
    }
}

/// What a transfer makes of an event.
#[derive(Debug, PartialEq, Eq)]
pub enum TransferTurn {
    /// The transfer goes on and asks for `action`.
    Continue { transfer: Transfer, action: TransferAction, note: Option<Note> },
    /// The transfer has ended, well or not.
    Finished(Result<TransferOutcome, TransferError>),
    /// The event answers nothing that the transfer has asked for: the transfer is
    /// handed back as it was.
    Ignored(Transfer),
}

/// The mathematical content of a [`TransferTurn`].
pub enum TransferTurnView {
    Continue { transfer: TransferView, action: TransferActionView, note: Option<Note> },
    Finished(Result<TransferOutcome, TransferErrorView>),
    Ignored(TransferView),
}

impl View for TransferTurn {
    type V = TransferTurnView;

    open spec fn view(&self) -> TransferTurnView {
        match self {
            TransferTurn::Continue { transfer, action, note } => TransferTurnView::Continue {
                transfer: transfer@,
                action: action@,
                note: *note,
            },
            TransferTurn::Finished(Ok(outcome)) => TransferTurnView::Finished(Ok(*outcome)),
            TransferTurn::Finished(Err(error)) => TransferTurnView::Finished(Err(error@)),
            TransferTurn::Ignored(transfer) => TransferTurnView::Ignored(transfer@),
        }
    }
}

impl TransferView {
    /// A transfer that has just begun: it has moved nothing and awaits word of whether
    /// the file is there.
    pub open spec fn begun(
        locator: Seq<char>,
        expected_size: u64,
        file_name: Seq<char>,
        directory: Seq<char>,
        overwrite: bool,
    ) -> TransferView {
        TransferView {
            locator,
            expected_size,
            directory,
            file_name,
            overwrite,
            phase: TransferPhaseView::CheckingExistence,
            session: TransferSession { bytes_transferred: 0, chunks: 0 },
        }
    }

    /// What a transfer asks for first: whether the file is there.
    pub open spec fn first_action(self) -> TransferActionView {
        TransferActionView::CheckExistence { directory: self.directory, file_name: self.file_name }
    }

    /// The transfer in another phase.
    pub open spec fn in_phase(self, phase: TransferPhaseView) -> TransferView {
        TransferView {
            locator: self.locator,
            expected_size: self.expected_size,
            directory: self.directory,
            file_name: self.file_name,
            overwrite: self.overwrite,
            phase,
            session: self.session,
        }
    }

    /// The transfer after one more chunk of `length` bytes was written.
    pub open spec fn counted(self, length: nat) -> TransferView {
        TransferView {
            locator: self.locator,
            expected_size: self.expected_size,
            directory: self.directory,
            file_name: self.file_name,
            overwrite: self.overwrite,
            phase: self.phase,
            session: self.session.recorded(length),
        }
    }

    /// How far the transfer has come.
    pub open spec fn progress(self) -> Note {
        Note::TransferProgress {
            position: self.session.bytes_transferred,
            total: self.expected_size,
        }
    }

    /// The transfer goes on in `phase` and asks for `action`.
    pub open spec fn goes_on(
        self,
        phase: TransferPhaseView,
        action: TransferActionView,
        note: Option<Note>,
    ) -> TransferTurnView {
        TransferTurnView::Continue { transfer: self.in_phase(phase), action, note }
    }

    /// What a transfer makes of an event.
    ///
    /// A file that is there and may not be overwritten ends the transfer at once, as
    /// skipped. Otherwise the stream is opened, the directory made, the file created,
    /// and each chunk written as it was read and counted once it is written; when the
    /// body has ended the file is flushed, and the transfer is complete. Any failure
    /// ends the transfer with the error that names the step and carries the cause. An
    /// event that answers nothing that was asked for is ignored.
    pub open spec fn next(self, event: TransferEventView) -> TransferTurnView {
        match (self.phase, event) {
            (TransferPhaseView::CheckingExistence, TransferEventView::Existence(present)) => {
                match admission(present, self.overwrite) {
                    Admission::Skip => TransferTurnView::Finished(
                        Ok(TransferOutcome::SkippedExisting),
                    ),
                    Admission::Proceed { replacing } => self.goes_on(
                        TransferPhaseView::Opening,
                        TransferActionView::Open { locator: self.locator },
                        if replacing {
                            Some(Note::Replacing)
                        } else {
                            None
                        },
                    ),
                }
            },
            (TransferPhaseView::Opening, TransferEventView::Opened(Ok(_))) => self.goes_on(
                TransferPhaseView::CreatingDirectory,
                TransferActionView::CreateDirectory { directory: self.directory },
                None,
            ),
            (TransferPhaseView::Opening, TransferEventView::Opened(Err(cause))) => {
                TransferTurnView::Finished(Err(TransferErrorView::Open(cause)))
            },
            (
                TransferPhaseView::CreatingDirectory,
                TransferEventView::DirectoryCreated(Ok(_)),
            ) => self.goes_on(
                TransferPhaseView::CreatingFile,
                TransferActionView::CreateFile {
                    directory: self.directory,
                    file_name: self.file_name,
                },
                None,
            ),
            (
                TransferPhaseView::CreatingDirectory,
                TransferEventView::DirectoryCreated(Err(cause)),
            ) => TransferTurnView::Finished(Err(TransferErrorView::CreateDirectory(cause))),
            (TransferPhaseView::CreatingFile, TransferEventView::FileCreated(Ok(_))) => self.goes_on(
                TransferPhaseView::Reading,
                TransferActionView::ReadChunk,
                Some(self.progress()),
            ),
            (TransferPhaseView::CreatingFile, TransferEventView::FileCreated(Err(cause))) => {
                TransferTurnView::Finished(Err(TransferErrorView::CreateFile(cause)))
            },
            (TransferPhaseView::Reading, TransferEventView::ChunkRead(Ok(Some(bytes)))) => {
                self.goes_on(
                    TransferPhaseView::Writing { pending: bytes.len() },
                    TransferActionView::WriteChunk { bytes },
                    None,
                )
            },
            (TransferPhaseView::Reading, TransferEventView::ChunkRead(Ok(None))) => self.goes_on(
                TransferPhaseView::Flushing,
                TransferActionView::Flush,
                None,
            ),
            (TransferPhaseView::Reading, TransferEventView::ChunkRead(Err(cause))) => {
                TransferTurnView::Finished(Err(TransferErrorView::Read(cause)))
            },
            (TransferPhaseView::Writing { pending }, TransferEventView::ChunkWritten(Ok(_))) => {
                self.counted(pending).goes_on(
                    TransferPhaseView::Reading,
                    TransferActionView::ReadChunk,
                    Some(self.counted(pending).progress()),
                )
            },
            (TransferPhaseView::Writing { .. }, TransferEventView::ChunkWritten(Err(cause))) => {
                TransferTurnView::Finished(Err(TransferErrorView::Write(cause)))
            },
            (TransferPhaseView::Flushing, TransferEventView::Flushed(Ok(_))) => {
                TransferTurnView::Finished(Ok(TransferOutcome::Completed(self.session)))
            },
            (TransferPhaseView::Flushing, TransferEventView::Flushed(Err(cause))) => {
                TransferTurnView::Finished(Err(TransferErrorView::Sync(cause)))
            },
            _ => TransferTurnView::Ignored(self),
        }
    }
}

impl Transfer {
    /// Begins the transfer of the file that `descriptor` tells of into `file_name` in
    /// `directory`. What comes back with the transfer is the first thing to do: to tell
    /// whether the file is there.
    pub fn begin(
        descriptor: &DownloadDescriptor,
        file_name: String,
        directory: String,
        overwrite: bool,
    ) -> (begun: (Transfer, TransferAction))
        ensures
            begun.0@ == TransferView::begun(
                descriptor@.resource_locator,
                descriptor@.expected_size,
                file_name@,
                directory@,
                overwrite,
            ),
            begun.1@ == begun.0@.first_action(),
    {
        let action = TransferAction::CheckExistence {
            directory: directory.clone(),
            file_name: file_name.clone(),
        };
        let transfer = Transfer {
            locator: descriptor.resource_locator.clone(),
            expected_size: descriptor.expected_size,
            directory,
            file_name,
            overwrite,
            phase: TransferPhase::CheckingExistence,
            session: TransferSession::new(),
        };
        (transfer, action)
    }

    /// What the transfer has moved so far.
    pub fn session(&self) -> (session: TransferSession)
        ensures
            session == self@.session,
    {
        self.session
    }

    /// Where the transfer stands.
    pub fn phase(&self) -> (phase: TransferPhase)
        ensures
            phase@ == self@.phase,
    {
        self.phase
    }

    /// The name of the file that the transfer writes.
    pub fn file_name(&self) -> (name: &str)
        ensures
            name@ == self@.file_name,
    {
        self.file_name.as_str()
    }

    fn goes_on(self, phase: TransferPhase, action: TransferAction, note: Option<Note>) -> (turn:
        TransferTurn)
        ensures
            turn@ == self@.goes_on(phase@, action@, note),
    {
        let Transfer { locator, expected_size, directory, file_name, overwrite, phase: _, session } =
            self;
        TransferTurn::Continue {
            transfer: Transfer {
                locator,
                expected_size,
                directory,
                file_name,
                overwrite,
                phase,
                session,
            },
            action,
            note,
        }
    }

    fn progress(&self) -> (note: Note)
        ensures
            note == self@.progress(),
    {
        Note::TransferProgress {
            position: self.session.bytes_transferred,
            total: self.expected_size,
        }
    }

    /// Takes the answer to the action that was asked for last, and says how the
    /// transfer goes on or that it has ended.
    pub fn step(self, event: TransferEvent) -> (turn: TransferTurn)
        ensures
            turn@ == self@.next(event@),
    {
        match (self.phase, event) {
            (TransferPhase::CheckingExistence, TransferEvent::Existence(present)) => {
                match decide_admission(present, self.overwrite) {
                    Admission::Skip => TransferTurn::Finished(Ok(TransferOutcome::SkippedExisting)),
                    Admission::Proceed { replacing } => {
                        let action = TransferAction::Open { locator: self.locator.clone() };
                        let note = if replacing {
                            Some(Note::Replacing)
                        } else {
                            None
                        };
                        self.goes_on(TransferPhase::Opening, action, note)
                    },
                }
            },
            (TransferPhase::Opening, TransferEvent::Opened(Ok(_))) => {
                let action = TransferAction::CreateDirectory { directory: self.directory.clone() };
                self.goes_on(TransferPhase::CreatingDirectory, action, None)
            },
            (TransferPhase::Opening, TransferEvent::Opened(Err(cause))) => TransferTurn::Finished(
                Err(TransferError::Open(cause)),
            ),
            (TransferPhase::CreatingDirectory, TransferEvent::DirectoryCreated(Ok(_))) => {
                let action = TransferAction::CreateFile {
                    directory: self.directory.clone(),
                    file_name: self.file_name.clone(),
                };
                self.goes_on(TransferPhase::CreatingFile, action, None)
            },
            (TransferPhase::CreatingDirectory, TransferEvent::DirectoryCreated(Err(cause))) => {
                TransferTurn::Finished(Err(TransferError::CreateDirectory(cause)))
            },
            (TransferPhase::CreatingFile, TransferEvent::FileCreated(Ok(_))) => {
                let note = self.progress();
                self.goes_on(TransferPhase::Reading, TransferAction::ReadChunk, Some(note))
            },
            (TransferPhase::CreatingFile, TransferEvent::FileCreated(Err(cause))) => {
                TransferTurn::Finished(Err(TransferError::CreateFile(cause)))
            },
            (TransferPhase::Reading, TransferEvent::ChunkRead(Ok(Some(bytes)))) => {
                let pending = bytes.len();
                self.goes_on(
                    TransferPhase::Writing { pending },
                    TransferAction::WriteChunk { bytes },
                    None,
                )
            },
            (TransferPhase::Reading, TransferEvent::ChunkRead(Ok(None))) => self.goes_on(
                TransferPhase::Flushing,
                TransferAction::Flush,
                None,
            ),
            (TransferPhase::Reading, TransferEvent::ChunkRead(Err(cause))) => {
                TransferTurn::Finished(Err(TransferError::Read(cause)))
            },
            (TransferPhase::Writing { pending }, TransferEvent::ChunkWritten(Ok(_))) => {
                let mut counted = self;
                counted.session.record(pending);
                let note = counted.progress();
                counted.goes_on(TransferPhase::Reading, TransferAction::ReadChunk, Some(note))
            },
            (TransferPhase::Writing { .. }, TransferEvent::ChunkWritten(Err(cause))) => {
                TransferTurn::Finished(Err(TransferError::Write(cause)))
            },
            (TransferPhase::Flushing, TransferEvent::Flushed(Ok(_))) => TransferTurn::Finished(
                Ok(TransferOutcome::Completed(self.session)),
            ),
            (TransferPhase::Flushing, TransferEvent::Flushed(Err(cause))) => TransferTurn::Finished(
                Err(TransferError::Sync(cause)),
            ),
            _ => TransferTurn::Ignored(self),
        }
    }
}

/// A transfer that may not overwrite and finds its file there ends at once, as
/// skipped; any other goes on to open the stream of its locator, and says so where it
/// replaces a file.
pub proof fn lemma_existing_file_is_left_alone(transfer: TransferView, present: bool)
    requires
        transfer.phase == TransferPhaseView::CheckingExistence,
    ensures
        present && !transfer.overwrite ==> transfer.next(TransferEventView::Existence(present))
            == TransferTurnView::Finished(Ok(TransferOutcome::SkippedExisting)),
        !(present && !transfer.overwrite) ==> ({
            let turn = transfer.next(TransferEventView::Existence(present));
            &&& turn is Continue
            &&& turn->Continue_transfer == transfer.in_phase(TransferPhaseView::Opening)
            &&& turn->Continue_action == (TransferActionView::Open { locator: transfer.locator })
            &&& present ==> turn->Continue_note == Some(Note::Replacing)
            &&& !present ==> turn->Continue_note is None
        }),
{
}

/// A chunk is written as it was read, and counted once its writing is confirmed.
pub proof fn lemma_chunk_is_written_as_read(transfer: TransferView, bytes: Seq<u8>)
    requires
        transfer.phase == TransferPhaseView::Reading,
    ensures
        ({
            let handed = transfer.next(TransferEventView::ChunkRead(Ok(Some(bytes))));
            let counted = handed->Continue_transfer.next(TransferEventView::ChunkWritten(Ok(())));
            &&& handed is Continue
            &&& handed->Continue_action == (TransferActionView::WriteChunk { bytes })
            &&& handed->Continue_transfer.session == transfer.session
            &&& counted is Continue
            &&& counted->Continue_action == TransferActionView::ReadChunk
            &&& counted->Continue_transfer == transfer.counted(bytes.len())
            &&& counted->Continue_note == Some(transfer.counted(bytes.len()).progress())
        }),
{
}

/// A transfer that goes on stays the transfer of its file: locator, size, directory,
/// file name and permission to overwrite are kept, and nothing that was counted is
/// taken away.
pub proof fn lemma_transfer_keeps_its_file(transfer: TransferView, event: TransferEventView)
    requires
        transfer.next(event) is Continue,
    ensures
        ({
            let moved = transfer.next(event)->Continue_transfer;
            &&& moved.locator == transfer.locator
            &&& moved.expected_size == transfer.expected_size
            &&& moved.directory == transfer.directory
            &&& moved.file_name == transfer.file_name
            &&& moved.overwrite == transfer.overwrite
            &&& transfer.session.bytes_transferred <= moved.session.bytes_transferred
            &&& transfer.session.chunks <= moved.session.chunks
        }),
{
}

/// What a transfer asks for comes in its order: the stream is opened only for a file
/// that may be fetched; the directory is made once the stream is open, and the file
/// created once the directory is there; a chunk is read only into a file that was
/// created, and written only as it was read; and the file is flushed only when the body
/// has ended.
pub proof fn lemma_transfer_actions_come_in_order(transfer: TransferView, event: TransferEventView)
    requires
        transfer.next(event) is Continue,
    ensures
        ({
            let action = transfer.next(event)->Continue_action;
            let phase = transfer.phase;
            &&& !(action is CheckExistence)
            &&& action is Open ==> phase == TransferPhaseView::CheckingExistence
                && event is Existence && (!event->Existence_0 || transfer.overwrite)
            &&& action is CreateDirectory ==> phase == TransferPhaseView::Opening && event is Opened
                && event->Opened_0 is Ok
            &&& action is CreateFile ==> phase == TransferPhaseView::CreatingDirectory
                && event is DirectoryCreated && event->DirectoryCreated_0 is Ok
            &&& action is ReadChunk ==> (phase == TransferPhaseView::CreatingFile
                && event is FileCreated && event->FileCreated_0 is Ok) || (phase is Writing
                && event is ChunkWritten && event->ChunkWritten_0 is Ok)
            &&& action is WriteChunk ==> phase == TransferPhaseView::Reading && event
                == TransferEventView::ChunkRead(Ok(Some(action->bytes)))
            &&& action is Flush ==> phase == TransferPhaseView::Reading && event
                == TransferEventView::ChunkRead(Ok(None))
        }),
{
}

/// A transfer completes only by the word that the flush is done, and what it hands out
/// then is what it has counted.
pub proof fn lemma_transfer_completes_at_the_flush(transfer: TransferView, event: TransferEventView)
    requires
        transfer.next(event) is Finished,
        transfer.next(event)->Finished_0 is Ok,
    ensures
        transfer.next(event)->Finished_0->Ok_0 is SkippedExisting ==> transfer.phase
            == TransferPhaseView::CheckingExistence && event == TransferEventView::Existence(true)
            && !transfer.overwrite,
        transfer.next(event)->Finished_0->Ok_0 is Completed ==> transfer.phase
            == TransferPhaseView::Flushing && event is Flushed && event->Flushed_0 is Ok
            && transfer.next(event)->Finished_0->Ok_0->Completed_0 == transfer.session,
{
}

} // verus!
