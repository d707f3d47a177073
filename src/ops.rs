use vstd::prelude::*;
use crate::note::{Note, NoteView, notes_view};

verus! {

/// One line of a listing: the position within the listed view, counted from 1,
/// and the note shown there.
pub struct ListEntry {
    pub index: usize,
    pub note: Note,
}

/// Whether a listing with `filter` shows a note of content `n`.
pub open spec fn shown(n: NoteView, filter: Option<Seq<char>>) -> bool {
    match filter {
        None => true,
        Some(c) => n.category == c,
    }
}

/// The notes that a listing shows: all of them, or those whose category is
/// exactly `filter`, in store order.
pub open spec fn listed(notes: Seq<NoteView>, filter: Option<Seq<char>>) -> Seq<NoteView>
    decreases notes.len(),
{
    if notes.len() == 0 {
        Seq::empty()
    } else {
        let rest = listed(notes.drop_last(), filter);
        if shown(notes.last(), filter) {
            rest.push(notes.last())
        } else {
            rest
        }
    }
}

/// The category that a listing keeps, as characters.
pub open spec fn filter_view(filter: Option<&String>) -> Option<Seq<char>> {
    match filter {
        None => None,
        Some(c) => Some(c@),
    }
}

/// A listing as index and note content, line by line.
pub open spec fn entries_view(r: Seq<ListEntry>) -> Seq<(int, NoteView)> {
    r.map_values(|e: ListEntry| (e.index as int, e.note@))
}

/// What a listing shows: the listed notes numbered from 1.
pub open spec fn listing(notes: Seq<NoteView>, filter: Option<Seq<char>>) -> Seq<(int, NoteView)> {
    let l = listed(notes, filter);
    Seq::new(l.len(), |k: int| (k + 1, l[k]))
}

/// Lists `notes`, keeping those of category `filter` when one is given, and
/// numbers the lines from 1 within the listed view.
pub fn list(notes: &Vec<Note>, filter: Option<&String>) -> (r: Vec<ListEntry>)
    ensures
        entries_view(r@) == listing(notes_view(notes@), filter_view(filter)),
{
    let ghost want = filter_view(filter);
    let mut out: Vec<ListEntry> = Vec::new();
    let mut i: usize = 0;
    while i < notes.len()
        invariant
            0 <= i <= notes@.len(),
            want == filter_view(filter),
            out@.len() == listed(notes_view(notes@.take(i as int)), want).len(),
            out@.len() <= i,
            forall|k: int|
                0 <= k < out@.len() ==> {
                    &&& (#[trigger] out@[k]).index == k + 1
                    &&& out@[k].note@ == listed(notes_view(notes@.take(i as int)), want)[k]
                },
        decreases notes@.len() - i,
    {
        let keep = match filter {
            None => true,
            Some(c) => notes[i].category == *c,
        };
        proof {
            let pre = notes_view(notes@.take(i as int));
            assert(notes_view(notes@.take(i + 1)) =~= pre.push(notes[i as int]@));
            assert(notes_view(notes@.take(i + 1)).drop_last() =~= pre);
        }
        if keep {
            let index = out.len() + 1;
            out.push(ListEntry { index, note: notes[i].duplicate() });
        }
        i = i + 1;
    }
    proof {
        assert(notes@.take(notes@.len() as int) =~= notes@);
        assert(entries_view(out@) =~= listing(notes_view(notes@), want));
    }
    out
}

/// The position given to an edit or a removal names no note of the store.
pub enum IndexError {
    OutOfRange,
}

/// Appends a note of text `text` and category `category` at the end of the store.
pub fn add(notes: &mut Vec<Note>, text: String, category: String)
    ensures
        notes_view(final(notes)@) == notes_view(old(notes)@).push(
            NoteView { text: text@, category: category@ },
        ),
        final(notes)@.len() == old(notes)@.len() + 1,
{
    let note = Note::new(text, category);
    notes.push(note);
    proof {
        assert(notes_view(notes@) =~= notes_view(old(notes)@).push(
            NoteView { text: text@, category: category@ },
        ));
    }
}

/// Replaces text and category of the note at `index` (counted from 0), which
/// keeps its position; an index past the end changes nothing.
pub fn edit_by_index(notes: &mut Vec<Note>, index: usize, text: String, category: String) -> (r:
    Result<(), IndexError>)
    ensures
        r is Ok <==> index < old(notes)@.len(),
        r is Ok ==> notes_view(final(notes)@) == notes_view(old(notes)@).update(
            index as int,
            NoteView { text: text@, category: category@ },
        ),
        final(notes)@.len() == old(notes)@.len(),
        r is Err ==> final(notes)@ == old(notes)@,
{
    if index >= notes.len() {
        return Err(IndexError::OutOfRange);
    }
    notes.set(index, Note::new(text, category));
    proof {
        assert(notes_view(notes@) =~= notes_view(old(notes)@).update(
            index as int,
            NoteView { text: text@, category: category@ },
        ));
    }
    Ok(())
}

/// Removes the note at `index` (counted from 0); the notes after it move one
/// position down. An index past the end changes nothing.
pub fn remove_by_index(notes: &mut Vec<Note>, index: usize) -> (r: Result<(), IndexError>)
    ensures
        r is Ok <==> index < old(notes)@.len(),
        r is Ok ==> notes_view(final(notes)@) == notes_view(old(notes)@).remove(index as int),
        r is Ok ==> final(notes)@.len() == old(notes)@.len() - 1,
        r is Ok ==> forall|j: int|
            0 <= j < final(notes)@.len() ==> (#[trigger] final(notes)@[j])@ == if j < index {
                old(notes)@[j]@
            } else {
                old(notes)@[j + 1]@
            },
        r is Err ==> final(notes)@ == old(notes)@,
{
    if index >= notes.len() {
        return Err(IndexError::OutOfRange);
    }
    notes.remove(index);
    proof {
        assert(notes_view(notes@) =~= notes_view(old(notes)@).remove(index as int));
    }
    Ok(())
}

/// The glyph shown beside a note of category `category`.
pub open spec fn icon_of(category: Seq<char>) -> Seq<char> {
    if category == "shopping"@ {
        "\u{1F6CD}\u{FE0F}"@
    } else if category == "work"@ {
        "\u{1F4BC}"@
    } else if category == "personal"@ {
        "\u{1F31F}"@
    } else if category == "study"@ {
        "\u{1F4DA}"@
    } else {
        "\u{1F4DD}"@
    }
}

/// Looks up the glyph of a category by exact match, with a default glyph for
/// any other label.
pub fn icon_for_category(category: &String) -> (r: &'static str)
    ensures
        r@ == icon_of(category@),
{
    if *category == "shopping".to_owned() {
        "\u{1F6CD}\u{FE0F}"
    } else if *category == "work".to_owned() {
        "\u{1F4BC}"
    } else if *category == "personal".to_owned() {
        "\u{1F31F}"
    } else if *category == "study".to_owned() {
        "\u{1F4DA}"
    } else {
        "\u{1F4DD}"
    }
}

} // verus!
