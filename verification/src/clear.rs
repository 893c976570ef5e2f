use crate::error::{StoreError, StoreErrorView};
use vstd::pervasive::unreached;
use vstd::prelude::*;

verus! {

/// One entry of the temporary directory, as the listing reported it.
#[derive(Debug, PartialEq, Eq)]
pub enum EntryReport {
    /// The entry could not be read. It is passed over.
    Unreadable,
    /// An entry with the text of its path, and whether it is a regular file.
    Found { path: String, is_file: bool },
}

/// The mathematical value of an [`EntryReport`].
pub ghost enum EntryView {
    Unreadable,
    Found { path: Seq<char>, is_file: bool },
}

impl View for EntryReport {
    type V = EntryView;

    open spec fn view(&self) -> EntryView {
        match self {
            EntryReport::Unreadable => EntryView::Unreadable,
            EntryReport::Found { path, is_file } => EntryView::Found {
                path: path@,
                is_file: *is_file,
            },
        }
    }
}

/// The mathematical value of a listing.
pub open spec fn listing_view(entries: Seq<EntryReport>) -> Seq<EntryView> {
    entries.map_values(|entry: EntryReport| entry@)
}

/// What the file system answered to the last request of a clearing.
#[derive(Debug, PartialEq, Eq)]
pub enum ClearEvent {
    /// The temporary directory exists.
    DirectoryFound,
    /// The temporary directory does not exist.
    DirectoryMissing,
    /// The direct entries of the temporary directory, in the order in which
    /// the file system gave them.
    DirectoryListed { entries: Vec<EntryReport> },
    /// The entries could not be read.
    DirectoryNotListed { cause: String },
    /// The entry is gone.
    EntryRemoved,
    /// The entry could not be removed.
    EntryNotRemoved { cause: String },
}

/// The mathematical value of a [`ClearEvent`].
pub ghost enum ClearEventView {
    DirectoryFound,
    DirectoryMissing,
    DirectoryListed { entries: Seq<EntryView> },
    DirectoryNotListed { cause: Seq<char> },
    EntryRemoved,
    EntryNotRemoved { cause: Seq<char> },
}

impl View for ClearEvent {
    type V = ClearEventView;

    open spec fn view(&self) -> ClearEventView {
        match self {
            ClearEvent::DirectoryFound => ClearEventView::DirectoryFound,
            ClearEvent::DirectoryMissing => ClearEventView::DirectoryMissing,
            ClearEvent::DirectoryListed { entries } => ClearEventView::DirectoryListed {
                entries: listing_view(entries@),
            },
            ClearEvent::DirectoryNotListed { cause } => ClearEventView::DirectoryNotListed {
                cause: cause@,
            },
            ClearEvent::EntryRemoved => ClearEventView::EntryRemoved,
            ClearEvent::EntryNotRemoved { cause } => ClearEventView::EntryNotRemoved {
                cause: cause@,
            },
        }
    }
}

/// What a clearing asks of its caller next.
#[derive(Debug, PartialEq, Eq)]
pub enum ClearAction {
    /// Find out whether the temporary directory exists.
    ProbeDirectory,
    /// Read the direct entries of the temporary directory.
    ListDirectory,
    /// Remove the file that the listing reported at this position.
    RemoveEntry { index: usize },
    /// The clearing is over: hand this to whoever asked for it.
    Finish { outcome: Result<(), StoreError> },
    /// The event answered no request of this clearing; nothing has changed.
    Ignored,
}

/// The mathematical value of a [`ClearAction`].
pub ghost enum ClearActionView {
    ProbeDirectory,
    ListDirectory,
    RemoveEntry { index: int },
    Finish { outcome: Result<(), StoreErrorView> },
    Ignored,
}

impl View for ClearAction {
    type V = ClearActionView;

    open spec fn view(&self) -> ClearActionView {
        match self {
            ClearAction::ProbeDirectory => ClearActionView::ProbeDirectory,
            ClearAction::ListDirectory => ClearActionView::ListDirectory,
            ClearAction::RemoveEntry { index } => ClearActionView::RemoveEntry {
                index: *index as int,
            },
            ClearAction::Finish { outcome } => ClearActionView::Finish {
                outcome: match outcome {
                    Ok(_) => Ok(()),
                    Err(error) => Err(error@),
                },
            },
            ClearAction::Ignored => ClearActionView::Ignored,
        }
    }
}

/// How far a clearing has come, as a mathematical value. Each state but the
/// last waits for the answer to one request.
pub ghost enum ClearState {
    /// Asked whether the directory exists.
    Probing,
    /// Asked for the entries of the directory.
    Listing,
    /// Asked for the entry at `index` of `entries` to be removed.
    Removing { entries: Seq<EntryView>, index: int },
    /// Over. The outcome has been handed out.
    Finished,
}

/// The entry at `index` of `entries` is there and is a regular file.
pub open spec fn is_file_at(entries: Seq<EntryView>, index: int) -> bool {
    &&& 0 <= index < entries.len()
    &&& entries[index] matches EntryView::Found { is_file, .. }
    &&& is_file
}

/// The text of the path of `entry`; empty for an entry that was not read.
pub open spec fn path_of(entry: EntryView) -> Seq<char> {
    match entry {
        EntryView::Found { path, .. } => path,
        EntryView::Unreadable => Seq::empty(),
    }
}

/// The position of the first regular file of `entries` at or after `from`;
/// the length of `entries` if there is none.
pub open spec fn next_file(entries: Seq<EntryView>, from: int) -> int
    decreases entries.len() - from,
{
    if from >= entries.len() {
        entries.len() as int
    } else if is_file_at(entries, from) {
        from
    } else {
        next_file(entries, from + 1)
    }
}

/// The first state and request of a clearing.
pub open spec fn clear_start() -> (ClearState, ClearActionView) {
    (ClearState::Probing, ClearActionView::ProbeDirectory)
}

/// Where a clearing goes when the entries before `from` are dealt with: to
/// the removal of the next regular file, or to a good end if none is left.
pub open spec fn clear_resume(entries: Seq<EntryView>, from: int) -> (
    ClearState,
    ClearActionView,
) {
    let index = next_file(entries, from);
    if index < entries.len() {
        (ClearState::Removing { entries, index }, ClearActionView::RemoveEntry { index })
    } else {
        (ClearState::Finished, ClearActionView::Finish { outcome: Ok(()) })
    }
}

/// The state that follows `state` on `event`, and what the clearing asks
/// next.
///
/// A directory that is missing is a directory that is clear. Of one that
/// is there, the regular files are removed in the order of the listing;
/// what is no regular file, or could not be read, is passed over. The
/// first removal that fails ends the clearing with an error that names the
/// file; the files after it are not touched. An event that is no answer to
/// the request that is open leaves the state as it is.
pub open spec fn clear_step(state: ClearState, event: ClearEventView) -> (
    ClearState,
    ClearActionView,
) {
    match (state, event) {
        (ClearState::Probing, ClearEventView::DirectoryMissing) => (
            ClearState::Finished,
            ClearActionView::Finish { outcome: Ok(()) },
        ),
        (ClearState::Probing, ClearEventView::DirectoryFound) => (
            ClearState::Listing,
            ClearActionView::ListDirectory,
        ),
        (ClearState::Listing, ClearEventView::DirectoryListed { entries }) => clear_resume(
            entries,
            0,
        ),
        (ClearState::Listing, ClearEventView::DirectoryNotListed { cause }) => (
            ClearState::Finished,
            ClearActionView::Finish { outcome: Err(StoreErrorView::ReadDir { cause }) },
        ),
        (ClearState::Removing { entries, index }, ClearEventView::EntryRemoved) => clear_resume(
            entries,
            index + 1,
        ),
        (ClearState::Removing { entries, index }, ClearEventView::EntryNotRemoved { cause }) => (
            ClearState::Finished,
            ClearActionView::Finish {
                outcome: Err(
                    StoreErrorView::Delete { path: Some(path_of(entries[index])), cause },
                ),
            },
        ),
        _ => (state, ClearActionView::Ignored),
    }
}

enum ClearStage {
    Probing,
    Listing,
    Removing { entries: Vec<EntryReport>, index: usize },
    Finished,
}

/// One clearing of the temporary directory.
///
/// The session performs nothing itself. It begins with a request, takes the
/// answer to it with [`ClearSession::advance`] and replies with the next
/// request, until it replies with [`ClearAction::Finish`].
pub struct ClearSession {
    stage: ClearStage,
}

impl View for ClearSession {
    type V = ClearState;

    closed spec fn view(&self) -> ClearState {
        match self.stage {
            ClearStage::Probing => ClearState::Probing,
            ClearStage::Listing => ClearState::Listing,
            ClearStage::Removing { entries, index } => ClearState::Removing {
                entries: listing_view(entries@),
                index: index as int,
            },
            ClearStage::Finished => ClearState::Finished,
        }
    }
}

/// Finds the first regular file of `entries` at or after `from`.
fn seek_file(entries: &Vec<EntryReport>, from: usize) -> (index: usize)
    requires
        from <= entries.len(),
    ensures
        index == next_file(listing_view(entries@), from as int),
        from <= index <= entries.len(),
        index < entries.len() ==> is_file_at(listing_view(entries@), index as int),
{
    let mut index = from;
    while index < entries.len()
        invariant
            from <= index <= entries.len(),
            next_file(listing_view(entries@), from as int) == next_file(
                listing_view(entries@),
                index as int,
            ),
        decreases entries.len() - index,
    {
        match &entries[index] {
            EntryReport::Found { is_file, .. } => {
                if *is_file {
                    return index;
                }
            },
            EntryReport::Unreadable => {},
        }
        index += 1;
    }
    index
}

impl ClearSession {
    /// A session is never asked to remove anything but a regular file of
    /// its listing.
    #[verifier::type_invariant]
    spec fn removes_files_only(self) -> bool {
        match self.stage {
            ClearStage::Removing { entries, index } => is_file_at(
                listing_view(entries@),
                index as int,
            ),
            _ => true,
        }
    }

    /// Begins a clearing.
    pub fn begin() -> (next: (ClearSession, ClearAction))
        ensures
            (next.0@, next.1@) == clear_start(),
    {
        (ClearSession { stage: ClearStage::Probing }, ClearAction::ProbeDirectory)
    }

    /// Goes on with the entries at and after `from`.
    fn resume(entries: Vec<EntryReport>, from: usize) -> (next: (ClearSession, ClearAction))
        requires
            from <= entries.len(),
        ensures
            (next.0@, next.1@) == clear_resume(listing_view(entries@), from as int),
    {
        let index = seek_file(&entries, from);
        if index < entries.len() {
            (
                ClearSession { stage: ClearStage::Removing { entries, index } },
                ClearAction::RemoveEntry { index },
            )
        } else {
            (ClearSession { stage: ClearStage::Finished }, ClearAction::Finish { outcome: Ok(()) })
        }
    }

    /// Takes the answer to the open request and replies with the next one.
    pub fn advance(self, event: ClearEvent) -> (next: (ClearSession, ClearAction))
        ensures
            (next.0@, next.1@) == clear_step(self@, event@),
    {
        proof {
            use_type_invariant(&self);
        }
        match self.stage {
            ClearStage::Probing => match event {
                ClearEvent::DirectoryMissing => (
                    ClearSession { stage: ClearStage::Finished },
                    ClearAction::Finish { outcome: Ok(()) },
                ),
                ClearEvent::DirectoryFound => (
                    ClearSession { stage: ClearStage::Listing },
                    ClearAction::ListDirectory,
                ),
                _ => (ClearSession { stage: ClearStage::Probing }, ClearAction::Ignored),
            },
            ClearStage::Listing => match event {
                ClearEvent::DirectoryListed { entries } => ClearSession::resume(entries, 0),
                ClearEvent::DirectoryNotListed { cause } => (
                    ClearSession { stage: ClearStage::Finished },
                    ClearAction::Finish { outcome: Err(StoreError::ReadDir { cause }) },
                ),
                _ => (ClearSession { stage: ClearStage::Listing }, ClearAction::Ignored),
            },
            ClearStage::Removing { entries, index } => match event {
                ClearEvent::EntryRemoved => {
                    assert(index < entries.len());
                    ClearSession::resume(entries, index + 1)
                },
                ClearEvent::EntryNotRemoved { cause } => {
                    let path = match &entries[index] {
                        EntryReport::Found { path, .. } => path.clone(),
                        EntryReport::Unreadable => unreached(),
                    };
                    (
                        ClearSession { stage: ClearStage::Finished },
                        ClearAction::Finish {
                            outcome: Err(StoreError::Delete { path: Some(path), cause }),
                        },
                    )
                },
                _ => (
                    ClearSession { stage: ClearStage::Removing { entries, index } },
                    ClearAction::Ignored,
                ),
            },
            ClearStage::Finished => (
                ClearSession { stage: ClearStage::Finished },
                ClearAction::Ignored,
            ),
        }
    }

    /// Whether the clearing is over.
    pub fn is_finished(&self) -> (over: bool)
        ensures
            over == (self@ is Finished),
    {
        match self.stage {
            ClearStage::Finished => true,
            _ => false,
        }
    }
}

} // verus!
