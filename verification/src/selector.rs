use crate::models::{DownloadLinks, DownloadLinksView};
use crate::outcome::FailureKind;
use vstd::prelude::*;
use vstd::std_specs::iter::IteratorSpec;

verus! {

/// Where the last segment of `text` begins: just behind its last `/`, or at 0 where it
/// has none.
pub open spec fn segment_start(text: Seq<char>) -> nat
    decreases text.len(),
{
    if text.len() == 0 {
        0
    } else if text.last() == '/' {
        text.len()
    } else {
        segment_start(text.drop_last())
    }
}

/// The last segment of `text`: what follows its last `/`, or all of it where it has none.
pub open spec fn final_segment(text: Seq<char>) -> Seq<char> {
    text.subrange(segment_start(text) as int, text.len() as int)
}

/// The last segment begins inside the text, holds no `/`, and is either the whole text
/// or stands right behind a `/`.
pub proof fn lemma_segment_start(text: Seq<char>)
    ensures
        segment_start(text) <= text.len(),
        forall|i: int| segment_start(text) <= i < text.len() ==> text[i] != '/',
        segment_start(text) > 0 ==> text[segment_start(text) - 1] == '/',
    decreases text.len(),
{
    if text.len() > 0 && text.last() != '/' {
        let shorter = text.drop_last();
        lemma_segment_start(shorter);
        assert forall|i: int| segment_start(text) <= i < text.len() implies text[i] != '/' by {
            if i < shorter.len() {
                assert(shorter[i] == text[i]);
            }
        }
    }
}

/// Only one place in a text has what `lemma_segment_start` states of the place where
/// the last segment begins.
pub proof fn lemma_segment_start_unique(text: Seq<char>, place: int)
    requires
        0 <= place <= text.len(),
        forall|i: int| place <= i < text.len() ==> text[i] != '/',
        place > 0 ==> text[place - 1] == '/',
    ensures
        place == segment_start(text),
{
    lemma_segment_start(text);
    let start = segment_start(text) as int;
    if place < start {
        assert(text[start - 1] == '/');
    } else if start < place {
        assert(text[place - 1] == '/');
    }
}

/// Where to fetch a file, how large it should be, and the checksum that it must have.
#[derive(Debug, PartialEq, Eq)]
pub struct DownloadDescriptor {
    pub resource_locator: String,
    pub expected_size: u64,
    pub expected_checksum: String,
}

/// The mathematical content of a [`DownloadDescriptor`].
pub struct DownloadDescriptorView {
    pub resource_locator: Seq<char>,
    pub expected_size: u64,
    pub expected_checksum: Seq<char>,
}

impl View for DownloadDescriptor {
    type V = DownloadDescriptorView;

    open spec fn view(&self) -> DownloadDescriptorView {
        DownloadDescriptorView {
            resource_locator: self.resource_locator@,
            expected_size: self.expected_size,
            expected_checksum: self.expected_checksum@,
        }
    }
}

/// Why no descriptor could be had from a document.
#[derive(Debug, PartialEq, Eq)]
pub enum SelectionError {
    /// The document has no offering for the platform asked for.
    PlatformNotFound,
    /// The offering's locator, which it holds, ends where a file name should stand.
    MalformedLocator { locator: String },
}

/// The mathematical content of a [`SelectionError`].
pub enum SelectionErrorView {
    PlatformNotFound,
    MalformedLocator { locator: Seq<char> },
}

impl View for SelectionError {
    type V = SelectionErrorView;

    open spec fn view(&self) -> SelectionErrorView {
        match self {
            SelectionError::PlatformNotFound => SelectionErrorView::PlatformNotFound,
            SelectionError::MalformedLocator { locator } => SelectionErrorView::MalformedLocator {
                locator: locator@,
            },
        }
    }
}

impl SelectionErrorView {
    /// The kind of failure that this error makes of a run.
    pub open spec fn kind(self) -> FailureKind {
        match self {
            SelectionErrorView::PlatformNotFound => FailureKind::PlatformNotFound,
            SelectionErrorView::MalformedLocator { .. } => FailureKind::MalformedLocator,
        }
    }
}

impl SelectionError {
    /// The kind of failure that this error makes of a run.
    pub fn kind(&self) -> (kind: FailureKind)
        ensures
            kind == self@.kind(),
    {
        match self {
            SelectionError::PlatformNotFound => FailureKind::PlatformNotFound,
            SelectionError::MalformedLocator { .. } => FailureKind::MalformedLocator,
        }
    }
}

/// What a document offers for a platform: the descriptor made of the offering's link,
/// size and checksum as they stand, where the document has the platform and the link
/// names a file.
pub open spec fn selection(doc: DownloadLinksView, platform: Seq<char>) -> Result<
    DownloadDescriptorView,
    SelectionErrorView,
> {
    if !doc.content.contains_key(platform) {
        Err(SelectionErrorView::PlatformNotFound)
    } else if final_segment(doc.content[platform].download_link).len() == 0 {
        Err(SelectionErrorView::MalformedLocator { locator: doc.content[platform].download_link })
    } else {
        Ok(
            DownloadDescriptorView {
                resource_locator: doc.content[platform].download_link,
                expected_size: doc.content[platform].size,
                expected_checksum: doc.content[platform].installer_md5,
            },
        )
    }
}

/// The file name that a locator gives: its last segment, or `None` where that is empty.
pub fn file_name(locator: &str) -> (name: Option<String>)
    ensures
        match name {
            Some(text) => text@ == final_segment(locator@) && text@.len() > 0,
            None => final_segment(locator@).len() == 0,
        },
{
    let length = locator.unicode_len();
    let mut rest = locator.chars();
    let mut seen: usize = 0;
    let mut start: usize = 0;
    loop
        invariant
            seen <= length == locator@.len(),
            rest.remaining() == locator@.skip(seen as int),
            start == segment_start(locator@.take(seen as int)),
        ensures
            seen == length,
        decreases length - seen,
    {
        match rest.next() {
            None => {
                break ;
            },
            Some(c) => {
                proof {
                    let before = locator@.take(seen as int);
                    let after = locator@.take(seen + 1);
                    assert(after.last() == c);
                    assert(after.drop_last() =~= before);
                    assert(locator@.skip(seen as int).drop_first() =~= locator@.skip(seen + 1));
                }
                seen += 1;
                if c == '/' {
                    start = seen;
                }
            },
        }
    }
    proof {
        assert(locator@.take(seen as int) =~= locator@);
        lemma_segment_start(locator@);
    }
    if start == length {
        None
    } else {
        Some(locator.substring_char(start, length).to_owned())
    }
}

impl Clone for DownloadDescriptor {
    fn clone(&self) -> (copy: Self)
        ensures
            copy@ == self@,
    {
        DownloadDescriptor {
            resource_locator: self.resource_locator.clone(),
            expected_size: self.expected_size,
            expected_checksum: self.expected_checksum.clone(),
        }
    }
}

impl DownloadDescriptor {
    /// The name under which the file is kept: the last segment of the locator, or
    /// `None` where that is empty.
    pub fn file_name(&self) -> (name: Option<String>)
        ensures
            match name {
                Some(text) => text@ == final_segment(self@.resource_locator) && text@.len() > 0,
                None => final_segment(self@.resource_locator).len() == 0,
            },
    {
        file_name(self.resource_locator.as_str())
    }
}

/// Picks the offering for `platform` out of `doc`.
///
/// A document without the platform gives `PlatformNotFound`. An offering whose link
/// names no file gives `MalformedLocator` with that link. Any other gives the
/// descriptor that holds the offering's link, size and checksum unchanged.
pub fn select(doc: &DownloadLinks, platform: &str) -> (chosen: Result<
    DownloadDescriptor,
    SelectionError,
>)
    ensures
        match chosen {
            Ok(descriptor) => selection(doc@, platform@) == Ok::<
                DownloadDescriptorView,
                SelectionErrorView,
            >(descriptor@),
            Err(error) => selection(doc@, platform@) == Err::<
                DownloadDescriptorView,
                SelectionErrorView,
            >(error@),
        },
        !doc@.content.contains_key(platform@) ==> chosen is Err && chosen->Err_0@
            == SelectionErrorView::PlatformNotFound,
        doc@.content.contains_key(platform@) && final_segment(
            doc@.content[platform@].download_link,
        ).len() > 0 ==> chosen is Ok && chosen->Ok_0@.resource_locator
            == doc@.content[platform@].download_link && chosen->Ok_0@.expected_checksum
            == doc@.content[platform@].installer_md5 && chosen->Ok_0@.expected_size
            == doc@.content[platform@].size,
{
    match doc.get(platform) {
        None => Err(SelectionError::PlatformNotFound),
        Some(option) => match file_name(option.download_link.as_str()) {
            None => Err(SelectionError::MalformedLocator { locator: option.download_link.clone() }),
            Some(_) => Ok(
                DownloadDescriptor {
                    resource_locator: option.download_link.clone(),
                    expected_size: option.size,
                    expected_checksum: option.installer_md5.clone(),
                },
            ),
        },
    }
}

} // verus!
