use crate::checksum::{absorbed, hasher_finalize, hasher_new, hasher_update, md5_digest, Hasher};
use crate::notes::Note;
use crate::outcome::FailureKind;
use crate::transfer::{advance, advance_by, answer_view};
use crate::utils::{encode_hex, hex_encoding};
use vstd::prelude::*;
use vstd::std_specs::iter::IteratorSpec;

verus! {

/// What the comparison of a file's checksum with the expected one gave.
#[derive(Debug, PartialEq, Eq)]
pub enum VerificationResult {
    /// The file's checksum is `digest`, and that is the expected one in lowercase.
    Match { digest: String },
    /// The file has `actual` where `expected` was asked for.
    Mismatch { expected: String, actual: String },
}

/// The mathematical content of a [`VerificationResult`].
pub enum VerificationResultView {
    Match { digest: Seq<char> },
    Mismatch { expected: Seq<char>, actual: Seq<char> },
}

impl View for VerificationResult {
    type V = VerificationResultView;

    open spec fn view(&self) -> VerificationResultView {
        match self {
            VerificationResult::Match { digest } => VerificationResultView::Match {
                digest: digest@,
            },
            VerificationResult::Mismatch { expected, actual } => VerificationResultView::Mismatch {
                expected: expected@,
                actual: actual@,
            },
        }
    }
}

/// The lowercase letter for a capital `A` to `Z`; any other character is kept.
pub open spec fn lower_char(c: char) -> char {
    if 'A' <= c && c <= 'Z' {
        ((c as u32) + 32) as char
    } else {
        c
    }
}

/// `text` with each capital `A` to `Z` turned into its lowercase letter, all else kept.
pub open spec fn lowered(text: Seq<char>) -> Seq<char> {
    Seq::new(text.len(), |i: int| lower_char(text[i]))
}

/// The result of comparing the checksum `actual` with `expected`: they match where
/// `actual` is `expected` in lowercase. A mismatch holds the expected checksum as it
/// came.
pub open spec fn verdict(actual: Seq<char>, expected: Seq<char>) -> VerificationResultView {
    if actual == lowered(expected) {
        VerificationResultView::Match { digest: actual }
    } else {
        VerificationResultView::Mismatch { expected, actual }
    }
}

/// The result of verifying a file that holds `content` against `expected`.
pub open spec fn verification(content: Seq<u8>, expected: Seq<char>) -> VerificationResultView {
    verdict(hex_encoding(md5_digest(content)), expected)
}

/// Turns a capital `A` to `Z` into its lowercase letter and keeps any other character.
pub fn lower(c: char) -> (low: char)
    ensures
        low == lower_char(c),
{
    if 'A' <= c && c <= 'Z' {
        ((c as u8) + 32) as char
    } else {
        c
    }
}

/// Whether `actual` is `expected` in lowercase.
pub fn equals_lowered(actual: &str, expected: &str) -> (same: bool)
    ensures
        same == (actual@ == lowered(expected@)),
{
    let length = actual.unicode_len();
    if expected.unicode_len() != length {
        assert(lowered(expected@).len() == expected@.len());
        return false;
    }
    let mut ours = actual.chars();
    let mut theirs = expected.chars();
    let mut seen: usize = 0;
    loop
        invariant
            seen <= length == actual@.len() == expected@.len(),
            ours.remaining() == actual@.skip(seen as int),
            theirs.remaining() == expected@.skip(seen as int),
            forall|i: int| 0 <= i < seen ==> actual@[i] == lower_char(expected@[i]),
        ensures
            seen == length,
        decreases length - seen,
    {
        match (ours.next(), theirs.next()) {
            (Some(one), Some(other)) => {
                proof {
                    assert(actual@.skip(seen as int).drop_first() =~= actual@.skip(seen + 1));
                    assert(expected@.skip(seen as int).drop_first() =~= expected@.skip(seen + 1));
                }
                if one != lower(other) {
                    assert(lowered(expected@)[seen as int] != actual@[seen as int]);
                    return false;
                }
                seen += 1;
            },
            _ => {
                break ;
            },
        }
    }
    assert(actual@ =~= lowered(expected@));
    true
}

/// Compares a digest, written in lowercase hexadecimal, with the expected checksum in
/// lowercase: capitals in the expected checksum count as their lowercase letters.
pub fn judge(digest: &[u8], expected: &str) -> (result: VerificationResult)
    ensures
        result@ == verdict(hex_encoding(digest@), expected@),
{
    let actual = encode_hex(digest);
    if equals_lowered(actual.as_str(), expected) {
        VerificationResult::Match { digest: actual }
    } else {
        VerificationResult::Mismatch { expected: expected.to_owned(), actual }
    }
}

/// Why a verification ended early; each carries the cause in words.
#[derive(Debug, PartialEq, Eq)]
pub enum VerifyError {
    Open(String),
    Read(String),
}

/// The mathematical content of a [`VerifyError`].
pub enum VerifyErrorView {
    Open(Seq<char>),
    Read(Seq<char>),
}

impl View for VerifyError {
    type V = VerifyErrorView;

    open spec fn view(&self) -> VerifyErrorView {
        match self {
            VerifyError::Open(cause) => VerifyErrorView::Open(cause@),
            VerifyError::Read(cause) => VerifyErrorView::Read(cause@),
        }
    }
}

impl VerifyErrorView {
    /// The kind of failure that this error makes of a run.
    pub open spec fn kind(self) -> FailureKind {
        match self {
            VerifyErrorView::Open(_) => FailureKind::VerificationOpen,
            VerifyErrorView::Read(_) => FailureKind::VerificationRead,
        }
    }
}

impl VerifyError {
    /// The kind of failure that this error makes of a run.
    pub fn kind(&self) -> (kind: FailureKind)
        ensures
            kind == self@.kind(),
    {
        match self {
            VerifyError::Open(_) => FailureKind::VerificationOpen,
            VerifyError::Read(_) => FailureKind::VerificationRead,
        }
    }
}

/// Where a verification stands: what was asked for last and is awaited.
#[derive(Debug, Clone, Copy, PartialEq, Eq, Structural)]
pub enum VerifyPhase {
    Opening,
    Reading,
}

/// Takes a file's content piece by piece and tells at the end whether its checksum is
/// the expected one.
pub struct Verifier {
    hasher: Hasher,
    bytes_verified: u64,
}

/// The mathematical content of a [`Verifier`]: all that it was given, and how much.
pub struct VerifierView {
    pub content: Seq<u8>,
    pub bytes_verified: u64,
}

impl VerifierView {
    /// A verifier that was given nothing.
    pub open spec fn empty() -> VerifierView {
        VerifierView { content: Seq::empty(), bytes_verified: 0 }
    }

    /// The verifier after one more piece.
    pub open spec fn absorbed(self, piece: Seq<u8>) -> VerifierView {
        VerifierView {
            content: self.content + piece,
            bytes_verified: advance(self.bytes_verified, piece.len()),
        }
    }
}

impl View for Verifier {
    type V = VerifierView;

    closed spec fn view(&self) -> VerifierView {
        VerifierView { content: absorbed(self.hasher), bytes_verified: self.bytes_verified }
    }
}

impl Verifier {
    /// A verifier that was given nothing.
    pub fn new() -> (verifier: Self)
        ensures
            verifier@ == VerifierView::empty(),
    {
        Verifier { hasher: hasher_new(), bytes_verified: 0 }
    }

    /// Gives the verifier the next piece of the file.
    pub fn absorb(&mut self, piece: &[u8])
        ensures
            final(self)@ == old(self)@.absorbed(piece@),
    {
        hasher_update(&mut self.hasher, piece);
        self.bytes_verified = advance_by(self.bytes_verified, piece.len());
    }

    /// How many bytes the verifier was given.
    pub fn bytes_verified(&self) -> (count: u64)
        ensures
            count == self@.bytes_verified,
    {
        self.bytes_verified
    }

    /// Ends the verification: the checksum of all that was given, whatever the pieces
    /// it came in, is compared with `expected`.
    pub fn conclude(self, expected: &str) -> (result: VerificationResult)
        ensures
            result@ == verification(self@.content, expected@),
    {
        let digest = hasher_finalize(self.hasher);
        judge(digest.as_slice(), expected)
    }
}

/// What the outside world answered to the action that a verification asked for last.
#[derive(Debug, PartialEq, Eq)]
pub enum VerifyEvent {
    Opened(Result<(), String>),
    /// The next piece of the file; an empty one where the file has ended.
    Read(Result<Vec<u8>, String>),
}

/// The mathematical content of a [`VerifyEvent`].
pub enum VerifyEventView {
    Opened(Result<(), Seq<char>>),
    Read(Result<Seq<u8>, Seq<char>>),
}

impl View for VerifyEvent {
    type V = VerifyEventView;

    open spec fn view(&self) -> VerifyEventView {
        match self {
            VerifyEvent::Opened(answer) => VerifyEventView::Opened(answer_view(*answer)),
            VerifyEvent::Read(Ok(bytes)) => VerifyEventView::Read(Ok(bytes@)),
            VerifyEvent::Read(Err(cause)) => VerifyEventView::Read(Err(cause@)),
        }
    }
}

/// What a verification asks the outside world to do next.
#[derive(Debug, PartialEq, Eq)]
pub enum VerifyAction {
    /// Open `file_name` in `directory` anew, for reading.
    Open { directory: String, file_name: String },
    /// Read the next piece of the file.
    Read,
}

/// The mathematical content of a [`VerifyAction`].
pub enum VerifyActionView {
    Open { directory: Seq<char>, file_name: Seq<char> },
    Read,
}

impl View for VerifyAction {
    type V = VerifyActionView;

    open spec fn view(&self) -> VerifyActionView {
        match self {
            VerifyAction::Open { directory, file_name } => VerifyActionView::Open {
                directory: directory@,
                file_name: file_name@,
            },
            VerifyAction::Read => VerifyActionView::Read,
        }
    }
}

/// One verification on its way: what the file should be, where the verification
/// stands, and what it has taken in of the file so far.
pub struct Verification {
    expected_checksum: String,
    expected_size: u64,
    phase: VerifyPhase,
    verifier: Verifier,
}

/// The mathematical content of a [`Verification`].
pub struct VerificationView {
    pub expected_checksum: Seq<char>,
    pub expected_size: u64,
    pub phase: VerifyPhase,
    pub verifier: VerifierView,
}

impl View for Verification {
    type V = VerificationView;

    closed spec fn view(&self) -> VerificationView {
        VerificationView {
            expected_checksum: self.expected_checksum@,
            expected_size: self.expected_size,
            phase: self.phase,
            verifier: self.verifier@,
        }
    }
}

/// What a verification makes of an event.
pub enum VerifyTurn {
    /// The verification goes on and asks for `action`.
    Continue { verification: Verification, action: VerifyAction, note: Option<Note> },
    /// The verification has ended: with a result, or with the error that stopped it.
    Finished(Result<VerificationResult, VerifyError>),
    /// The event answers nothing that the verification has asked for: the verification
    /// is handed back as it was.
    Ignored(Verification),
}

/// The mathematical content of a [`VerifyTurn`].
pub enum VerifyTurnView {
    Continue { verification: VerificationView, action: VerifyActionView, note: Option<Note> },
    Finished(Result<VerificationResultView, VerifyErrorView>),
    Ignored(VerificationView),
}

impl View for VerifyTurn {
    type V = VerifyTurnView;

    open spec fn view(&self) -> VerifyTurnView {
        match self {
            VerifyTurn::Continue { verification, action, note } => VerifyTurnView::Continue {
                verification: verification@,
                action: action@,
                note: *note,
            },
            VerifyTurn::Finished(Ok(result)) => VerifyTurnView::Finished(Ok(result@)),
            VerifyTurn::Finished(Err(error)) => VerifyTurnView::Finished(Err(error@)),
            VerifyTurn::Ignored(verification) => VerifyTurnView::Ignored(verification@),
        }
    }
}

impl VerificationView {
    /// A verification that has just begun: it has taken in nothing and awaits the file
    /// to be opened.
    pub open spec fn begun(expected_checksum: Seq<char>, expected_size: u64) -> VerificationView {
        VerificationView {
            expected_checksum,
            expected_size,
            phase: VerifyPhase::Opening,
            verifier: VerifierView::empty(),
        }
    }

    /// The verification reading, with `verifier` for what it has taken in.
    pub open spec fn reading(self, verifier: VerifierView) -> VerificationView {
        VerificationView {
            expected_checksum: self.expected_checksum,
            expected_size: self.expected_size,
            phase: VerifyPhase::Reading,
            verifier,
        }
    }

    /// How far the verification has come.
    pub open spec fn progress(self) -> Note {
        Note::VerificationProgress {
            position: self.verifier.bytes_verified,
            total: self.expected_size,
        }
    }

    /// The verification reads on, with `verifier` for what it has taken in.
    pub open spec fn reads_on(self, verifier: VerifierView) -> VerifyTurnView {
        VerifyTurnView::Continue {
            verification: self.reading(verifier),
            action: VerifyActionView::Read,
            note: Some(self.reading(verifier).progress()),
        }
    }

    /// What a verification makes of an event.
    ///
    /// Once the file is open it is taken in piece by piece. An empty piece is the end
    /// of the file: the checksum of all that was taken in is then compared with the
    /// expected one, and the verification ends with the result. A failure to open or to
    /// read ends it with the error that carries the cause. An event that answers
    /// nothing that was asked for is ignored.
    pub open spec fn next(self, event: VerifyEventView) -> VerifyTurnView {
        match (self.phase, event) {
            (VerifyPhase::Opening, VerifyEventView::Opened(Ok(_))) => self.reads_on(self.verifier),
            (VerifyPhase::Opening, VerifyEventView::Opened(Err(cause))) => {
                VerifyTurnView::Finished(Err(VerifyErrorView::Open(cause)))
            },
            (VerifyPhase::Reading, VerifyEventView::Read(Ok(bytes))) => if bytes.len() == 0 {
                VerifyTurnView::Finished(
                    Ok(verification(self.verifier.content, self.expected_checksum)),
                )
            } else {
                self.reads_on(self.verifier.absorbed(bytes))
            },
            (VerifyPhase::Reading, VerifyEventView::Read(Err(cause))) => VerifyTurnView::Finished(
                Err(VerifyErrorView::Read(cause)),
            ),
            _ => VerifyTurnView::Ignored(self),
        }
    }
}

impl Verification {
    /// Begins the verification of `file_name` in `directory` against the expected
    /// checksum. What comes back with the verification is the first thing to do: to open
    /// the file anew.
    pub fn begin(
        directory: String,
        file_name: String,
        expected_checksum: String,
        expected_size: u64,
    ) -> (begun: (Verification, VerifyAction))
        ensures
            begun.0@ == VerificationView::begun(expected_checksum@, expected_size),
            begun.1@ == (VerifyActionView::Open { directory: directory@, file_name: file_name@ }),
    {
        let verification = Verification {
            expected_checksum,
            expected_size,
            phase: VerifyPhase::Opening,
            verifier: Verifier::new(),
        };
        (verification, VerifyAction::Open { directory, file_name })
    }

    /// How many bytes of the file the verification has taken in.
    pub fn bytes_verified(&self) -> (count: u64)
        ensures
            count == self@.verifier.bytes_verified,
    {
        self.verifier.bytes_verified()
    }

    /// Where the verification stands.
    pub fn phase(&self) -> (phase: VerifyPhase)
        ensures
            phase == self@.phase,
    {
        self.phase
    }

    fn reads_on(expected_checksum: String, expected_size: u64, verifier: Verifier) -> (turn:
        VerifyTurn)
        ensures
            turn@ == (VerificationView {
                expected_checksum: expected_checksum@,
                expected_size,
                phase: VerifyPhase::Reading,
                verifier: verifier@,
            }).reads_on(verifier@),
    {
        let note = Note::VerificationProgress {
            position: verifier.bytes_verified(),
            total: expected_size,
        };
        VerifyTurn::Continue {
            verification: Verification {
                expected_checksum,
                expected_size,
                phase: VerifyPhase::Reading,
                verifier,
            },
            action: VerifyAction::Read,
            note: Some(note),
        }
    }

    /// Takes the answer to the action that was asked for last, and says how the
    /// verification goes on or that it has ended.
    pub fn step(self, event: VerifyEvent) -> (turn: VerifyTurn)
        ensures
            turn@ == self@.next(event@),
    {
        let Verification { expected_checksum, expected_size, phase, verifier } = self;
        match (phase, event) {
            (VerifyPhase::Opening, VerifyEvent::Opened(Ok(_))) => Self::reads_on(
                expected_checksum,
                expected_size,
                verifier,
            ),
            (VerifyPhase::Opening, VerifyEvent::Opened(Err(cause))) => VerifyTurn::Finished(
                Err(VerifyError::Open(cause)),
            ),
            (VerifyPhase::Reading, VerifyEvent::Read(Ok(bytes))) => {
                if bytes.len() == 0 {
                    VerifyTurn::Finished(Ok(verifier.conclude(expected_checksum.as_str())))
                } else {
                    let mut fed = verifier;
                    fed.absorb(bytes.as_slice());
                    Self::reads_on(expected_checksum, expected_size, fed)
                }
            },
            (VerifyPhase::Reading, VerifyEvent::Read(Err(cause))) => VerifyTurn::Finished(
                Err(VerifyError::Read(cause)),
            ),
            (phase, _) => VerifyTurn::Ignored(
                Verification { expected_checksum, expected_size, phase, verifier },
            ),
        }
    }
}

/// Text without a capital `A` to `Z` is its own lowercase; so is the text of any bytes
/// in hexadecimal.
pub proof fn lemma_lowering_keeps_lowercase(text: Seq<char>, bytes: Seq<u8>)
    ensures
        (forall|i: int| 0 <= i < text.len() ==> !('A' <= #[trigger] text[i] && text[i] <= 'Z'))
            ==> lowered(text) == text,
        lowered(hex_encoding(bytes)) == hex_encoding(bytes),
{
    if forall|i: int| 0 <= i < text.len() ==> !('A' <= #[trigger] text[i] && text[i] <= 'Z') {
        assert(lowered(text) =~= text);
    }
    crate::utils::lemma_hex_encoding_is_lowercase(bytes);
    assert(lowered(hex_encoding(bytes)) =~= hex_encoding(bytes));
}

/// A file matches exactly when the expected checksum, in lowercase, is the file's own;
/// otherwise the result holds both, the expected one as it came. An expected checksum
/// that is the file's own letter for letter matches.
pub proof fn lemma_verification_tells_match(content: Seq<u8>, expected: Seq<char>)
    ensures
        lowered(expected) == hex_encoding(md5_digest(content)) ==> verification(content, expected)
            == (VerificationResultView::Match { digest: hex_encoding(md5_digest(content)) }),
        lowered(expected) != hex_encoding(md5_digest(content)) ==> verification(content, expected)
            == (VerificationResultView::Mismatch {
            expected,
            actual: hex_encoding(md5_digest(content)),
        }),
        expected == hex_encoding(md5_digest(content)) ==> verification(content, expected)
            == (VerificationResultView::Match { digest: expected }),
{
    lemma_lowering_keeps_lowercase(expected, md5_digest(content));
}

} // verus!
