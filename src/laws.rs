use vstd::prelude::*;
use crate::note::{Note, NoteView, notes_view};
use crate::ops::{ListEntry, entries_view, listed, listing};

verus! {

/// The test that keeps a note of category `c`.
pub open spec fn in_category(c: Seq<char>) -> spec_fn(NoteView) -> bool {
    |n: NoteView| n.category == c
}

/// A listing with no filter shows every note of the store, in store order.
pub proof fn lemma_unfiltered_lists_all(notes: Seq<NoteView>)
    ensures
        listed(notes, None) == notes,
    decreases notes.len(),
{
    if notes.len() > 0 {
        lemma_unfiltered_lists_all(notes.drop_last());
        assert(notes.drop_last().push(notes.last()) =~= notes);
    }
}

/// A listing filtered by category `c` holds exactly the notes of the store whose
/// category equals `c`, in their relative order, numbered from 1.
pub proof fn lemma_filter_exact(notes: Seq<NoteView>, c: Seq<char>)
    ensures
        listed(notes, Some(c)) == notes.filter(in_category(c)),
        listing(notes, Some(c)) == Seq::new(
            notes.filter(in_category(c)).len(),
            |k: int| (k + 1, notes.filter(in_category(c))[k]),
        ),
    decreases notes.len(),
{
    reveal(Seq::filter);
    if notes.len() > 0 {
        lemma_filter_exact(notes.drop_last(), c);
    }
    assert(listing(notes, Some(c)) =~= Seq::new(
        notes.filter(in_category(c)).len(),
        |k: int| (k + 1, notes.filter(in_category(c))[k]),
    ));
}

/// Listing does not depend on when it is made: two listings of the same store
/// with the same filter show the same lines.
pub proof fn lemma_listing_repeatable(
    notes: Seq<Note>,
    filter: Option<Seq<char>>,
    first: Seq<ListEntry>,
    second: Seq<ListEntry>,
)
    requires
        entries_view(first) == listing(notes_view(notes), filter),
        entries_view(second) == listing(notes_view(notes), filter),
    ensures
        entries_view(first) == entries_view(second),
{
}

} // verus!
