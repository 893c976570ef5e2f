use crate::error::{StoreError, StoreErrorView};
use crate::image_path::ImagePath;
use crate::naming::{fresh_file_name, image_file_name, is_uuid_text};
use crate::payload::{decode_image_data, decoded_image};
use vstd::prelude::*;

verus! {

/// What the file system answered to the last request of a save.
#[derive(Debug, PartialEq, Eq)]
pub enum SaveEvent {
    /// The temporary directory exists.
    DirectoryFound,
    /// The temporary directory does not exist.
    DirectoryMissing,
    /// The temporary directory and its missing ancestors were made.
    DirectoryCreated,
    /// The temporary directory could not be made.
    DirectoryNotCreated { cause: String },
    /// The file was created; `path` is the text of its full path.
    FileCreated { path: String },
    /// The file could not be created.
    FileNotCreated { cause: String },
    /// All bytes went into the file.
    BytesWritten,
    /// The bytes could not be written.
    BytesNotWritten { cause: String },
}

/// The mathematical value of a [`SaveEvent`].
pub ghost enum SaveEventView {
    DirectoryFound,
    DirectoryMissing,
    DirectoryCreated,
    DirectoryNotCreated { cause: Seq<char> },
    FileCreated { path: Seq<char> },
    FileNotCreated { cause: Seq<char> },
    BytesWritten,
    BytesNotWritten { cause: Seq<char> },
}

impl View for SaveEvent {
    type V = SaveEventView;

    open spec fn view(&self) -> SaveEventView {
        match self {
            SaveEvent::DirectoryFound => SaveEventView::DirectoryFound,
            SaveEvent::DirectoryMissing => SaveEventView::DirectoryMissing,
            SaveEvent::DirectoryCreated => SaveEventView::DirectoryCreated,
            SaveEvent::DirectoryNotCreated { cause } => SaveEventView::DirectoryNotCreated {
                cause: cause@,
            },
            SaveEvent::FileCreated { path } => SaveEventView::FileCreated { path: path@ },
            SaveEvent::FileNotCreated { cause } => SaveEventView::FileNotCreated { cause: cause@ },
            SaveEvent::BytesWritten => SaveEventView::BytesWritten,
            SaveEvent::BytesNotWritten { cause } => SaveEventView::BytesNotWritten {
                cause: cause@,
            },
        }
    }
}

/// What a save asks of its caller next.
#[derive(Debug, PartialEq, Eq)]
pub enum SaveAction {
    /// Find out whether the temporary directory exists.
    ProbeDirectory,
    /// Make the temporary directory, with the ancestors that are missing.
    CreateDirectory,
    /// Create the file of this name in the temporary directory, emptying it
    /// should it exist.
    CreateFile { file_name: String },
    /// Write all these bytes to the file just created.
    WriteBytes { bytes: Vec<u8> },
    /// The save is over: hand this to whoever asked for it.
    Finish { outcome: Result<ImagePath, StoreError> },
    /// The event answered no request of this save; nothing has changed.
    Ignored,
}

/// The mathematical value of a [`SaveAction`].
pub ghost enum SaveActionView {
    ProbeDirectory,
    CreateDirectory,
    CreateFile { file_name: Seq<char> },
    WriteBytes { bytes: Seq<u8> },
    Finish { outcome: Result<Seq<char>, StoreErrorView> },
    Ignored,
}

impl View for SaveAction {
    type V = SaveActionView;

    open spec fn view(&self) -> SaveActionView {
        match self {
            SaveAction::ProbeDirectory => SaveActionView::ProbeDirectory,
            SaveAction::CreateDirectory => SaveActionView::CreateDirectory,
            SaveAction::CreateFile { file_name } => SaveActionView::CreateFile {
                file_name: file_name@,
            },
            SaveAction::WriteBytes { bytes } => SaveActionView::WriteBytes { bytes: bytes@ },
            SaveAction::Finish { outcome } => SaveActionView::Finish {
                outcome: match outcome {
                    Ok(saved) => Ok(saved@),
                    Err(error) => Err(error@),
                },
            },
            SaveAction::Ignored => SaveActionView::Ignored,
        }
    }
}

/// How far a save has come, as a mathematical value. Each state but the
/// last waits for the answer to one request.
pub ghost enum SaveState {
    /// Asked whether the directory exists.
    Probing { bytes: Seq<u8>, file_name: Seq<char> },
    /// Asked for the directory to be made.
    CreatingDirectory { bytes: Seq<u8>, file_name: Seq<char> },
    /// Asked for the file to be created.
    CreatingFile { bytes: Seq<u8> },
    /// Asked for the bytes to be written to the file at `path`.
    Writing { path: Seq<char> },
    /// Over. The outcome has been handed out.
    Finished,
}

/// The first state and request of a save of `bytes` under `file_name`.
pub open spec fn save_start(bytes: Seq<u8>, file_name: Seq<char>) -> (SaveState, SaveActionView) {
    (SaveState::Probing { bytes, file_name }, SaveActionView::ProbeDirectory)
}

/// The state and action of a save that is refused before it began.
pub open spec fn save_rejected(error: StoreErrorView) -> (SaveState, SaveActionView) {
    (SaveState::Finished, SaveActionView::Finish { outcome: Err(error) })
}

/// The state that follows `state` on `event`, and what the save asks next.
///
/// The steps of a save come one after the other: the directory is looked
/// for, made if it is missing, the file is created, the bytes are written.
/// The first step that fails ends the save with its error; nothing is tried
/// twice. An event that is no answer to the request that is open leaves
/// the state as it is.
pub open spec fn save_step(state: SaveState, event: SaveEventView) -> (SaveState, SaveActionView) {
    match (state, event) {
        (SaveState::Probing { bytes, file_name }, SaveEventView::DirectoryFound) => (
            SaveState::CreatingFile { bytes },
            SaveActionView::CreateFile { file_name },
        ),
        (SaveState::Probing { bytes, file_name }, SaveEventView::DirectoryMissing) => (
            SaveState::CreatingDirectory { bytes, file_name },
            SaveActionView::CreateDirectory,
        ),
        (SaveState::CreatingDirectory { bytes, file_name }, SaveEventView::DirectoryCreated) => (
            SaveState::CreatingFile { bytes },
            SaveActionView::CreateFile { file_name },
        ),
        (
            SaveState::CreatingDirectory { .. },
            SaveEventView::DirectoryNotCreated { cause },
        ) => (
            SaveState::Finished,
            SaveActionView::Finish { outcome: Err(StoreErrorView::DirectoryCreate { cause }) },
        ),
        (SaveState::CreatingFile { bytes }, SaveEventView::FileCreated { path }) => (
            SaveState::Writing { path },
            SaveActionView::WriteBytes { bytes },
        ),
        (SaveState::CreatingFile { .. }, SaveEventView::FileNotCreated { cause }) => (
            SaveState::Finished,
            SaveActionView::Finish { outcome: Err(StoreErrorView::FileCreate { cause }) },
        ),
        (SaveState::Writing { path }, SaveEventView::BytesWritten) => (
            SaveState::Finished,
            SaveActionView::Finish { outcome: Ok(path) },
        ),
        (SaveState::Writing { .. }, SaveEventView::BytesNotWritten { cause }) => (
            SaveState::Finished,
            SaveActionView::Finish { outcome: Err(StoreErrorView::Write { cause }) },
        ),
        _ => (state, SaveActionView::Ignored),
    }
}

enum SaveStage {
    Probing { bytes: Vec<u8>, file_name: String },
    CreatingDirectory { bytes: Vec<u8>, file_name: String },
    CreatingFile { bytes: Vec<u8> },
    Writing { path: String },
    Finished,
}

/// One save of one image, from the decoded bytes to the path of the file.
///
/// The session performs nothing itself. It begins with a request, takes the
/// answer to it with [`SaveSession::advance`] and replies with the next
/// request, until it replies with [`SaveAction::Finish`].
pub struct SaveSession {
    stage: SaveStage,
}

impl View for SaveSession {
    type V = SaveState;

    closed spec fn view(&self) -> SaveState {
        match self.stage {
            SaveStage::Probing { bytes, file_name } => SaveState::Probing {
                bytes: bytes@,
                file_name: file_name@,
            },
            SaveStage::CreatingDirectory { bytes, file_name } => SaveState::CreatingDirectory {
                bytes: bytes@,
                file_name: file_name@,
            },
            SaveStage::CreatingFile { bytes } => SaveState::CreatingFile { bytes: bytes@ },
            SaveStage::Writing { path } => SaveState::Writing { path: path@ },
            SaveStage::Finished => SaveState::Finished,
        }
    }
}

impl SaveSession {
    /// Begins the save of the image that `image_data_base64` holds.
    ///
    /// A text that does not decode ends the save at once, before anything is
    /// asked of the file system. Otherwise the image gets a fresh file name
    /// and the save asks for the directory.
    pub fn begin(image_data_base64: &str) -> (next: (SaveSession, SaveAction))
        ensures
            match decoded_image(image_data_base64@) {
                Ok(bytes) => exists|id: Seq<char>|
                    is_uuid_text(id) && (next.0@, next.1@) == save_start(
                        bytes,
                        #[trigger] image_file_name(id),
                    ),
                Err(error) => (next.0@, next.1@) == save_rejected(error),
            },
    {
        match decode_image_data(image_data_base64) {
            Ok(bytes) => {
                let file_name = fresh_file_name();
                SaveSession::start(bytes, file_name)
            },
            Err(error) => SaveSession::rejected(error),
        }
    }

    /// Begins the save of `bytes` under `file_name`.
    ///
    /// [`SaveSession::begin`] comes here with the bytes it decoded and the
    /// name it drew. A caller that holds both already may come here itself.
    pub fn start(bytes: Vec<u8>, file_name: String) -> (next: (SaveSession, SaveAction))
        ensures
            (next.0@, next.1@) == save_start(bytes@, file_name@),
    {
        (
            SaveSession { stage: SaveStage::Probing { bytes, file_name } },
            SaveAction::ProbeDirectory,
        )
    }

    /// A save that is over before it began, with `error` as its outcome.
    pub fn rejected(error: StoreError) -> (next: (SaveSession, SaveAction))
        ensures
            (next.0@, next.1@) == save_rejected(error@),
    {
        (SaveSession { stage: SaveStage::Finished }, SaveAction::Finish { outcome: Err(error) })
    }

    /// Takes the answer to the open request and replies with the next one.
    pub fn advance(self, event: SaveEvent) -> (next: (SaveSession, SaveAction))
        ensures
            (next.0@, next.1@) == save_step(self@, event@),
    {
        match self.stage {
            SaveStage::Probing { bytes, file_name } => match event {
                SaveEvent::DirectoryFound => (
                    SaveSession { stage: SaveStage::CreatingFile { bytes } },
                    SaveAction::CreateFile { file_name },
                ),
                SaveEvent::DirectoryMissing => (
                    SaveSession { stage: SaveStage::CreatingDirectory { bytes, file_name } },
                    SaveAction::CreateDirectory,
                ),
                _ => (
                    SaveSession { stage: SaveStage::Probing { bytes, file_name } },
                    SaveAction::Ignored,
                ),
            },
            SaveStage::CreatingDirectory { bytes, file_name } => match event {
                SaveEvent::DirectoryCreated => (
                    SaveSession { stage: SaveStage::CreatingFile { bytes } },
                    SaveAction::CreateFile { file_name },
                ),
                SaveEvent::DirectoryNotCreated { cause } => (
                    SaveSession { stage: SaveStage::Finished },
                    SaveAction::Finish { outcome: Err(StoreError::DirectoryCreate { cause }) },
                ),
                _ => (
                    SaveSession { stage: SaveStage::CreatingDirectory { bytes, file_name } },
                    SaveAction::Ignored,
                ),
            },
            SaveStage::CreatingFile { bytes } => match event {
                SaveEvent::FileCreated { path } => (
                    SaveSession { stage: SaveStage::Writing { path } },
                    SaveAction::WriteBytes { bytes },
                ),
                SaveEvent::FileNotCreated { cause } => (
                    SaveSession { stage: SaveStage::Finished },
                    SaveAction::Finish { outcome: Err(StoreError::FileCreate { cause }) },
                ),
                _ => (
                    SaveSession { stage: SaveStage::CreatingFile { bytes } },
                    SaveAction::Ignored,
                ),
            },
            SaveStage::Writing { path } => match event {
                SaveEvent::BytesWritten => (
                    SaveSession { stage: SaveStage::Finished },
                    SaveAction::Finish { outcome: Ok(ImagePath { path }) },
                ),
                SaveEvent::BytesNotWritten { cause } => (
                    SaveSession { stage: SaveStage::Finished },
                    SaveAction::Finish { outcome: Err(StoreError::Write { cause }) },
                ),
                _ => (SaveSession { stage: SaveStage::Writing { path } }, SaveAction::Ignored),
            },
            SaveStage::Finished => (
                SaveSession { stage: SaveStage::Finished },
                SaveAction::Ignored,
            ),
        }
    }

    /// Whether the save is over.
    pub fn is_finished(&self) -> (over: bool)
        ensures
            over == (self@ is Finished),
    {
        match self.stage {
            SaveStage::Finished => true,
            _ => false,
        }
    }
}

} // verus!
