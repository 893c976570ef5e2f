use crate::error::StoreErrorView;
use crate::payload::{decoded_image, jpeg_marker, lemma_marker_is_dropped, png_marker};
use crate::save::{
    save_rejected, save_start, save_step, SaveActionView, SaveEventView, SaveState,
};
use vstd::prelude::*;

verus! {

/// What a save asks, request by request, when it is in `state` and the
/// file system answers with `events` in turn.
pub open spec fn save_trace(state: SaveState, events: Seq<SaveEventView>) -> Seq<SaveActionView>
    decreases events.len(),
{
    if events.len() == 0 {
        Seq::empty()
    } else {
        seq![save_step(state, events[0]).1] + save_trace(
            save_step(state, events[0]).0,
            events.drop_first(),
        )
    }
}

/// Where a save ends up when it is in `state` and the file system answers
/// with `events` in turn.
pub open spec fn save_end(state: SaveState, events: Seq<SaveEventView>) -> SaveState
    decreases events.len(),
{
    if events.len() == 0 {
        state
    } else {
        save_end(save_step(state, events[0]).0, events.drop_first())
    }
}

/// What `state` still holds of the image with these bytes and this name is
/// that image's.
pub open spec fn holds_image(state: SaveState, bytes: Seq<u8>, file_name: Seq<char>) -> bool {
    match state {
        SaveState::Probing { bytes: held, file_name: named } => held == bytes && named
            == file_name,
        SaveState::CreatingDirectory { bytes: held, file_name: named } => held == bytes && named
            == file_name,
        SaveState::CreatingFile { bytes: held } => held == bytes,
        SaveState::Writing { .. } => true,
        SaveState::Finished => true,
    }
}

/// The request `action` concerns no file but the one named `file_name`
/// and no bytes but `bytes`.
pub open spec fn concerns_image(
    action: SaveActionView,
    bytes: Seq<u8>,
    file_name: Seq<char>,
) -> bool {
    match action {
        SaveActionView::CreateFile { file_name: named } => named == file_name,
        SaveActionView::WriteBytes { bytes: written } => written == bytes,
        _ => true,
    }
}

/// Where the directory is there and nothing fails, a save creates the file
/// under its name, writes the bytes to it and ends with the path that the
/// file system gave for the file.
pub proof fn lemma_save_into_directory(bytes: Seq<u8>, file_name: Seq<char>, path: Seq<char>)
    ensures
        save_trace(
            save_start(bytes, file_name).0,
            seq![
                SaveEventView::DirectoryFound,
                SaveEventView::FileCreated { path },
                SaveEventView::BytesWritten,
            ],
        ) == seq![
            SaveActionView::CreateFile { file_name },
            SaveActionView::WriteBytes { bytes },
            SaveActionView::Finish { outcome: Ok(path) },
        ],
        save_end(
            save_start(bytes, file_name).0,
            seq![
                SaveEventView::DirectoryFound,
                SaveEventView::FileCreated { path },
                SaveEventView::BytesWritten,
            ],
        ) == SaveState::Finished,
{
    let events = seq![
        SaveEventView::DirectoryFound,
        SaveEventView::FileCreated { path },
        SaveEventView::BytesWritten,
    ];
    let first = save_start(bytes, file_name).0;
    let second = save_step(first, events[0]).0;
    let third = save_step(second, events[1]).0;
    let last = save_step(third, events[2]).0;
    assert(events.drop_first().drop_first().drop_first() =~= Seq::empty());
    assert(save_trace(last, events.drop_first().drop_first().drop_first()) =~= Seq::empty());
    assert(save_end(last, events.drop_first().drop_first().drop_first()) == last);
    assert(events.drop_first()[0] == events[1]);
    assert(events.drop_first().drop_first()[0] == events[2]);
    assert(save_trace(third, events.drop_first().drop_first()) =~= seq![
        SaveActionView::Finish { outcome: Ok(path) },
    ]);
    assert(save_trace(second, events.drop_first()) =~= seq![
        SaveActionView::WriteBytes { bytes },
        SaveActionView::Finish { outcome: Ok(path) },
    ]);
    assert(save_end(third, events.drop_first().drop_first()) == last);
    assert(save_end(second, events.drop_first()) == last);
}

/// Where the directory is missing and nothing fails, a save first has the
/// directory made and then goes on as if it had been there.
pub proof fn lemma_save_makes_directory(bytes: Seq<u8>, file_name: Seq<char>)
    ensures
        save_step(save_start(bytes, file_name).0, SaveEventView::DirectoryMissing).1
            == SaveActionView::CreateDirectory,
        save_step(
            save_step(save_start(bytes, file_name).0, SaveEventView::DirectoryMissing).0,
            SaveEventView::DirectoryCreated,
        ) == save_step(save_start(bytes, file_name).0, SaveEventView::DirectoryFound),
{
}

/// Whatever the file system answers, and in whatever order, a save creates
/// no file but the one it named at the start and writes no bytes but the
/// ones it was begun with.
pub proof fn lemma_save_keeps_to_its_image(
    state: SaveState,
    bytes: Seq<u8>,
    file_name: Seq<char>,
    events: Seq<SaveEventView>,
)
    requires
        holds_image(state, bytes, file_name),
    ensures
        save_trace(state, events).len() == events.len(),
        forall|i: int|
            0 <= i < events.len() ==> concerns_image(
                #[trigger] save_trace(state, events)[i],
                bytes,
                file_name,
            ),
    decreases events.len(),
{
    if events.len() > 0 {
        let next = save_step(state, events[0]).0;
        lemma_save_keeps_to_its_image(next, bytes, file_name, events.drop_first());
    }
}

/// A save that is over stays over: it takes no further answer and asks
/// for nothing more.
pub proof fn lemma_finished_save_asks_nothing(events: Seq<SaveEventView>)
    ensures
        save_end(SaveState::Finished, events) == SaveState::Finished,
        save_trace(SaveState::Finished, events).len() == events.len(),
        forall|i: int|
            0 <= i < events.len() ==> #[trigger] save_trace(SaveState::Finished, events)[i]
                == SaveActionView::Ignored,
    decreases events.len(),
{
    if events.len() > 0 {
        lemma_finished_save_asks_nothing(events.drop_first());
    }
}

/// How many steps of a save lie behind `state`.
pub open spec fn save_progress(state: SaveState) -> nat {
    match state {
        SaveState::Probing { .. } => 0,
        SaveState::CreatingDirectory { .. } => 1,
        SaveState::CreatingFile { .. } => 2,
        SaveState::Writing { .. } => 3,
        SaveState::Finished => 4,
    }
}

/// A save only moves on: an event either is ignored and changes nothing,
/// or takes the save a step further. So nothing is tried twice, and the
/// outcome is handed out once, exactly when the save ends.
pub proof fn lemma_save_only_moves_on(state: SaveState, event: SaveEventView)
    ensures
        ({
            let (next, action) = save_step(state, event);
            if action is Ignored {
                next == state
            } else {
                &&& save_progress(next) > save_progress(state)
                &&& (action is Finish <==> next is Finished)
            }
        }),
{
}

/// A text whose payload decodes is saved as the bytes it decodes to: where
/// no step fails, the save writes exactly these bytes to the file it
/// created and ends with the path of that file. A known marker more in
/// front of the text changes nothing of this.
pub proof fn lemma_save_round_trip(
    text: Seq<char>,
    bytes: Seq<u8>,
    file_name: Seq<char>,
    path: Seq<char>,
)
    requires
        decoded_image(text) == Ok::<Seq<u8>, StoreErrorView>(bytes),
    ensures
        decoded_image(png_marker() + text) == Ok::<Seq<u8>, StoreErrorView>(bytes),
        decoded_image(jpeg_marker() + text) == Ok::<Seq<u8>, StoreErrorView>(bytes),
        save_trace(
            save_start(bytes, file_name).0,
            seq![
                SaveEventView::DirectoryFound,
                SaveEventView::FileCreated { path },
                SaveEventView::BytesWritten,
            ],
        ) == seq![
            SaveActionView::CreateFile { file_name },
            SaveActionView::WriteBytes { bytes },
            SaveActionView::Finish { outcome: Ok(path) },
        ],
{
    lemma_marker_is_dropped(text);
    lemma_save_into_directory(bytes, file_name, path);
}

/// A text whose payload does not decode is refused with a `Decode` error
/// that carries the decoder's words, and the save is over with that: it
/// asks for no directory and no file, whatever it is told afterwards.
pub proof fn lemma_refused_text_creates_nothing(
    text: Seq<char>,
    error: StoreErrorView,
    events: Seq<SaveEventView>,
)
    requires
        decoded_image(text) == Err::<Seq<u8>, StoreErrorView>(error),
    ensures
        error is Decode,
        save_rejected(error) == (
            SaveState::Finished,
            SaveActionView::Finish { outcome: Err(error) },
        ),
        save_trace(save_rejected(error).0, events).len() == events.len(),
        forall|i: int|
            0 <= i < events.len() ==> #[trigger] save_trace(save_rejected(error).0, events)[i]
                == SaveActionView::Ignored,
{
    lemma_finished_save_asks_nothing(events);
}

} // verus!
