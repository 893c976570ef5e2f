use crate::clear::{
    clear_resume, clear_start, clear_step, is_file_at, next_file, path_of, ClearActionView,
    ClearEventView, ClearState, EntryView,
};
use crate::error::StoreErrorView;
use vstd::prelude::*;

verus! {

/// What a clearing asks, request by request, when it is in `state` and
/// the file system answers with `events` in turn.
pub open spec fn clear_trace(state: ClearState, events: Seq<ClearEventView>) -> Seq<
    ClearActionView,
>
    decreases events.len(),
{
    if events.len() == 0 {
        Seq::empty()
    } else {
        seq![clear_step(state, events[0]).1] + clear_trace(
            clear_step(state, events[0]).0,
            events.drop_first(),
        )
    }
}

/// Where a clearing ends up when it is in `state` and the file system
/// answers with `events` in turn.
pub open spec fn clear_end(state: ClearState, events: Seq<ClearEventView>) -> ClearState
    decreases events.len(),
{
    if events.len() == 0 {
        state
    } else {
        clear_end(clear_step(state, events[0]).0, events.drop_first())
    }
}

/// The positions of the regular files of `entries` at or after `from`, in
/// rising order.
pub open spec fn files_from(entries: Seq<EntryView>, from: int) -> Seq<int>
    decreases entries.len() - from,
{
    if from >= entries.len() {
        Seq::empty()
    } else if is_file_at(entries, from) {
        seq![from] + files_from(entries, from + 1)
    } else {
        files_from(entries, from + 1)
    }
}

/// The positions of the regular files of `entries`, in rising order.
pub open spec fn files_of(entries: Seq<EntryView>) -> Seq<int> {
    files_from(entries, 0)
}

/// One request to remove for each of `indices`, in their order.
pub open spec fn removals(indices: Seq<int>) -> Seq<ClearActionView> {
    indices.map_values(|index: int| ClearActionView::RemoveEntry { index })
}

/// `count` removals that all went well.
pub open spec fn all_removed(count: nat) -> Seq<ClearEventView> {
    Seq::new(count, |i: int| ClearEventView::EntryRemoved)
}

/// `files_from` lists the regular files at or after `from`, all of them,
/// each once, and nothing else.
pub proof fn lemma_files_from(entries: Seq<EntryView>, from: int)
    requires
        0 <= from,
    ensures
        forall|k: int|
            0 <= k < files_from(entries, from).len() ==> from <= #[trigger] files_from(
                entries,
                from,
            )[k] && is_file_at(entries, files_from(entries, from)[k]),
        forall|k: int, l: int|
            0 <= k < l < files_from(entries, from).len() ==> #[trigger] files_from(
                entries,
                from,
            )[k] < #[trigger] files_from(entries, from)[l],
        forall|index: int|
            from <= index && #[trigger] is_file_at(entries, index) ==> files_from(
                entries,
                from,
            ).contains(index),
    decreases entries.len() - from,
{
    let files = files_from(entries, from);
    if from < entries.len() {
        let rest = files_from(entries, from + 1);
        lemma_files_from(entries, from + 1);
        if is_file_at(entries, from) {
            assert forall|index: int|
                from <= index && #[trigger] is_file_at(entries, index) implies files.contains(
                index,
            ) by {
                if index == from {
                    assert(files[0] == index);
                } else {
                    let k = choose|k: int| 0 <= k < rest.len() && rest[k] == index;
                    assert(files[k + 1] == index);
                }
            }
        }
    }
}

/// Of a listing that holds nothing but regular files, as after a number of
/// saves, every entry is one of the files to remove: a clearing that goes
/// well leaves the directory empty.
pub proof fn lemma_files_of_plain_listing(entries: Seq<EntryView>)
    requires
        forall|index: int| 0 <= index < entries.len() ==> is_file_at(entries, index),
    ensures
        files_of(entries) == Seq::new(entries.len(), |index: int| index),
{
    lemma_files_from_plain_listing(entries, 0);
}

/// In a listing that holds nothing but regular files, the files at or
/// after `from` are all the entries at or after `from`.
proof fn lemma_files_from_plain_listing(entries: Seq<EntryView>, from: int)
    requires
        0 <= from <= entries.len(),
        forall|index: int| 0 <= index < entries.len() ==> is_file_at(entries, index),
    ensures
        files_from(entries, from) == Seq::new(
            (entries.len() - from) as nat,
            |index: int| from + index,
        ),
    decreases entries.len() - from,
{
    if from < entries.len() {
        lemma_files_from_plain_listing(entries, from + 1);
        assert(is_file_at(entries, from));
    }
    assert(files_from(entries, from) =~= Seq::new(
        (entries.len() - from) as nat,
        |index: int| from + index,
    ));
}

/// The next regular file at or after `from` is the first of `files_from`,
/// and the files after it are the rest of `files_from`.
proof fn lemma_next_file_heads_files(entries: Seq<EntryView>, from: int)
    requires
        0 <= from,
    ensures
        files_from(entries, from).len() == 0 <==> next_file(entries, from) >= entries.len(),
        files_from(entries, from).len() > 0 ==> {
            &&& from <= next_file(entries, from) < entries.len()
            &&& files_from(entries, from)[0] == next_file(entries, from)
            &&& files_from(entries, from).drop_first() == files_from(
                entries,
                next_file(entries, from) + 1,
            )
        },
    decreases entries.len() - from,
{
    if from < entries.len() {
        if is_file_at(entries, from) {
            assert(files_from(entries, from).drop_first() =~= files_from(entries, from + 1));
        } else {
            lemma_next_file_heads_files(entries, from + 1);
        }
    }
}

/// A run over `first` and then `second` is the run over `first`, followed
/// by the run over `second` from where the first run ended.
proof fn lemma_clear_trace_splits(
    state: ClearState,
    first: Seq<ClearEventView>,
    second: Seq<ClearEventView>,
)
    ensures
        clear_trace(state, first + second) == clear_trace(state, first) + clear_trace(
            clear_end(state, first),
            second,
        ),
        clear_end(state, first + second) == clear_end(clear_end(state, first), second),
    decreases first.len(),
{
    if first.len() == 0 {
        assert(first + second =~= second);
        assert(clear_trace(state, first) + clear_trace(state, second) =~= clear_trace(
            state,
            second,
        ));
    } else {
        let next = clear_step(state, first[0]).0;
        assert((first + second).drop_first() =~= first.drop_first() + second);
        lemma_clear_trace_splits(next, first.drop_first(), second);
        assert(clear_trace(state, first + second) =~= clear_trace(state, first) + clear_trace(
            clear_end(state, first),
            second,
        ));
    }
}

/// From the entry at `from` on, with every removal going well, a clearing
/// asks for the regular files one by one and then ends well.
proof fn lemma_sweep_completes(entries: Seq<EntryView>, from: int)
    requires
        0 <= from,
    ensures
        seq![clear_resume(entries, from).1] + clear_trace(
            clear_resume(entries, from).0,
            all_removed(files_from(entries, from).len()),
        ) == removals(files_from(entries, from)) + seq![
            ClearActionView::Finish { outcome: Ok(()) },
        ],
        clear_end(clear_resume(entries, from).0, all_removed(files_from(entries, from).len()))
            == ClearState::Finished,
    decreases files_from(entries, from).len(),
{
    let files = files_from(entries, from);
    let (state, action) = clear_resume(entries, from);
    let answers = all_removed(files.len());
    lemma_next_file_heads_files(entries, from);
    if files.len() == 0 {
        assert(seq![action] + clear_trace(state, answers) =~= removals(files) + seq![
            ClearActionView::Finish { outcome: Ok(()) },
        ]);
    } else {
        let index = files[0];
        let rest = files_from(entries, index + 1);
        assert(answers.drop_first() =~= all_removed(rest.len()));
        lemma_sweep_completes(entries, index + 1);
        assert(seq![action] + clear_trace(state, answers) =~= removals(files) + seq![
            ClearActionView::Finish { outcome: Ok(()) },
        ]);
    }
}

/// From the entry at `from` on, after `done` removals that went well, a
/// clearing has asked for the first `done + 1` regular files and waits for
/// the answer on the last of them.
proof fn lemma_sweep_reaches(entries: Seq<EntryView>, from: int, done: nat)
    requires
        0 <= from,
        done < files_from(entries, from).len(),
    ensures
        seq![clear_resume(entries, from).1] + clear_trace(
            clear_resume(entries, from).0,
            all_removed(done),
        ) == removals(files_from(entries, from).take(done as int + 1)),
        clear_end(clear_resume(entries, from).0, all_removed(done)) == (ClearState::Removing {
            entries,
            index: files_from(entries, from)[done as int],
        }),
    decreases done,
{
    let files = files_from(entries, from);
    let (state, action) = clear_resume(entries, from);
    let answers = all_removed(done);
    lemma_next_file_heads_files(entries, from);
    let index = files[0];
    if done == 0 {
        assert(seq![action] + clear_trace(state, answers) =~= removals(files.take(1)));
    } else {
        let rest = files_from(entries, index + 1);
        assert(answers.drop_first() =~= all_removed((done - 1) as nat));
        lemma_sweep_reaches(entries, index + 1, (done - 1) as nat);
        assert(rest.take(done as int) =~= files.take(done as int + 1).drop_first());
        assert(seq![action] + clear_trace(state, answers) =~= removals(
            files.take(done as int + 1),
        ));
    }
}

/// A clearing that finds no directory ends well at once: it lists nothing
/// and removes nothing, and it has no request by which anything could be
/// created.
pub proof fn lemma_missing_directory_is_clear()
    ensures
        clear_step(clear_start().0, ClearEventView::DirectoryMissing) == (
            ClearState::Finished,
            ClearActionView::Finish { outcome: Ok(()) },
        ),
{
}

/// A clearing whose removals all go well asks for the listing, then for
/// the removal of each regular file that the listing holds, once and in
/// the order of the listing, and then ends well. It asks for nothing
/// else: what is no regular file stays, and so does the directory.
pub proof fn lemma_clear_removes_every_file(entries: Seq<EntryView>)
    ensures
        clear_trace(
            clear_start().0,
            seq![ClearEventView::DirectoryFound, ClearEventView::DirectoryListed { entries }]
                + all_removed(files_of(entries).len()),
        ) == seq![ClearActionView::ListDirectory] + removals(files_of(entries)) + seq![
            ClearActionView::Finish { outcome: Ok(()) },
        ],
        clear_end(
            clear_start().0,
            seq![ClearEventView::DirectoryFound, ClearEventView::DirectoryListed { entries }]
                + all_removed(files_of(entries).len()),
        ) == ClearState::Finished,
{
    let opening = seq![
        ClearEventView::DirectoryFound,
        ClearEventView::DirectoryListed { entries },
    ];
    let answers = all_removed(files_of(entries).len());
    lemma_opening(entries);
    lemma_clear_trace_splits(clear_start().0, opening, answers);
    lemma_sweep_completes(entries, 0);
    let sweep = seq![clear_resume(entries, 0).1] + clear_trace(clear_resume(entries, 0).0, answers);
    assert(clear_trace(clear_start().0, opening + answers) =~= seq![
        ClearActionView::ListDirectory,
    ] + sweep);
}

/// A clearing stops at the first removal that fails. Up to then it has
/// asked for the files before the failing one and for that one; it ends
/// with a `Delete` error that names the failing file and carries the file
/// system's words, and the files after it are never asked for.
pub proof fn lemma_clear_stops_at_first_failure(
    entries: Seq<EntryView>,
    done: nat,
    cause: Seq<char>,
)
    requires
        done < files_of(entries).len(),
    ensures
        clear_trace(
            clear_start().0,
            seq![ClearEventView::DirectoryFound, ClearEventView::DirectoryListed { entries }]
                + all_removed(done) + seq![ClearEventView::EntryNotRemoved { cause }],
        ) == seq![ClearActionView::ListDirectory] + removals(
            files_of(entries).take(done as int + 1),
        ) + seq![
            ClearActionView::Finish {
                outcome: Err(
                    StoreErrorView::Delete {
                        path: Some(path_of(entries[files_of(entries)[done as int]])),
                        cause,
                    },
                ),
            },
        ],
        clear_end(
            clear_start().0,
            seq![ClearEventView::DirectoryFound, ClearEventView::DirectoryListed { entries }]
                + all_removed(done) + seq![ClearEventView::EntryNotRemoved { cause }],
        ) == ClearState::Finished,
{
    let opening = seq![
        ClearEventView::DirectoryFound,
        ClearEventView::DirectoryListed { entries },
    ];
    let answers = all_removed(done);
    let failure = seq![ClearEventView::EntryNotRemoved { cause }];
    let start = clear_start().0;
    lemma_opening(entries);
    lemma_sweep_reaches(entries, 0, done);
    lemma_clear_trace_splits(start, opening, answers);
    lemma_clear_trace_splits(start, opening + answers, failure);
    let waiting = clear_end(start, opening + answers);
    lemma_single_step(waiting, ClearEventView::EntryNotRemoved { cause });
    let sweep = seq![clear_resume(entries, 0).1] + clear_trace(clear_resume(entries, 0).0, answers);
    assert(clear_trace(start, opening + answers) =~= seq![ClearActionView::ListDirectory]
        + sweep);
}

/// A run over one event is one step.
proof fn lemma_single_step(state: ClearState, event: ClearEventView)
    ensures
        clear_trace(state, seq![event]) == seq![clear_step(state, event).1],
        clear_end(state, seq![event]) == clear_step(state, event).0,
{
    let events = seq![event];
    let next = clear_step(state, events[0]).0;
    assert(events.drop_first() =~= Seq::empty());
    assert(clear_trace(next, events.drop_first()) =~= Seq::empty());
    assert(clear_trace(state, events) =~= seq![clear_step(state, event).1]);
    assert(clear_end(next, events.drop_first()) == next);
}

/// The first two answers of a clearing that finds its directory: the
/// listing is asked for, and then the clearing stands where the sweep
/// begins.
proof fn lemma_opening(entries: Seq<EntryView>)
    ensures
        clear_trace(
            clear_start().0,
            seq![ClearEventView::DirectoryFound, ClearEventView::DirectoryListed { entries }],
        ) == seq![ClearActionView::ListDirectory, clear_resume(entries, 0).1],
        clear_end(
            clear_start().0,
            seq![ClearEventView::DirectoryFound, ClearEventView::DirectoryListed { entries }],
        ) == clear_resume(entries, 0).0,
{
    let found = ClearEventView::DirectoryFound;
    let listed = ClearEventView::DirectoryListed { entries };
    let start = clear_start().0;
    lemma_single_step(start, found);
    lemma_single_step(ClearState::Listing, listed);
    lemma_clear_trace_splits(start, seq![found], seq![listed]);
    assert(seq![found] + seq![listed] =~= seq![found, listed]);
    assert(seq![ClearActionView::ListDirectory] + seq![clear_resume(entries, 0).1] =~= seq![
        ClearActionView::ListDirectory,
        clear_resume(entries, 0).1,
    ]);
}

/// Whatever is answered, a clearing asks for the removal of nothing but a
/// regular file of its listing, and then waits for the answer on that
/// file.
pub proof fn lemma_only_files_are_removed(state: ClearState, event: ClearEventView)
    requires
        state matches ClearState::Removing { entries, index } ==> is_file_at(entries, index),
    ensures
        clear_step(state, event).0 matches ClearState::Removing { entries, index } ==> is_file_at(
            entries,
            index,
        ),
        clear_step(state, event).1 matches ClearActionView::RemoveEntry { index } ==> {
            &&& clear_step(state, event).0 matches ClearState::Removing { entries, index: open }
            &&& open == index
            &&& is_file_at(entries, index)
        },
{
    match (state, event) {
        (ClearState::Listing, ClearEventView::DirectoryListed { entries }) => {
            lemma_next_file_is_file(entries, 0);
        },
        (ClearState::Removing { entries, index }, ClearEventView::EntryRemoved) => {
            lemma_next_file_is_file(entries, index + 1);
        },
        _ => {},
    }
}

/// What `next_file` finds inside the listing is a regular file.
proof fn lemma_next_file_is_file(entries: Seq<EntryView>, from: int)
    requires
        0 <= from,
    ensures
        next_file(entries, from) < entries.len() ==> is_file_at(
            entries,
            next_file(entries, from),
        ),
    decreases entries.len() - from,
{
    if from < entries.len() && !is_file_at(entries, from) {
        lemma_next_file_is_file(entries, from + 1);
    }
}

/// A clearing only moves on: an event either is ignored and changes
/// nothing, or takes the clearing to a later stage or, while it removes,
/// to a later entry of the same listing. No entry is asked for twice.
pub proof fn lemma_clear_only_moves_on(state: ClearState, event: ClearEventView)
    requires
        state matches ClearState::Removing { entries, index } ==> is_file_at(entries, index),
    ensures
        ({
            let (next, action) = clear_step(state, event);
            if action is Ignored {
                next == state
            } else {
                &&& (action is Finish <==> next is Finished)
                &&& !(next is Probing)
                &&& !(state is Finished)
                &&& (next is Listing ==> state is Probing)
                &&& (next matches ClearState::Removing { entries, index } ==> match state {
                    ClearState::Listing => true,
                    ClearState::Removing { entries: before, index: last } => before == entries
                        && last < index,
                    _ => false,
                })
            }
        }),
{
    match (state, event) {
        (ClearState::Listing, ClearEventView::DirectoryListed { entries }) => {
            lemma_next_file_is_file(entries, 0);
        },
        (ClearState::Removing { entries, index }, ClearEventView::EntryRemoved) => {
            lemma_next_file_is_file(entries, index + 1);
            lemma_next_file_is_not_before(entries, index + 1);
        },
        _ => {},
    }
}

/// `next_file` finds nothing before the place where it began.
proof fn lemma_next_file_is_not_before(entries: Seq<EntryView>, from: int)
    requires
        0 <= from <= entries.len(),
    ensures
        from <= next_file(entries, from) <= entries.len(),
    decreases entries.len() - from,
{
    if from < entries.len() && !is_file_at(entries, from) {
        lemma_next_file_is_not_before(entries, from + 1);
    }
}

} // verus!
