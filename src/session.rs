use vstd::prelude::*;
use crate::command::{Command, CommandView};
use crate::note::{Note, NoteView, notes_view};
use crate::ops::{
    ListEntry,
    edit_by_index,
    entries_view,
    list,
    listing,
    remove_by_index,
};

verus! {

/// What running a command came to, for the caller to report. `Added`,
/// `Edited` and `Removed` mean that the store changed and is to be written back.
pub enum Outcome {
    Usage,
    EditUsage,
    RemoveUsage,
    AddUsage,
    BadEditIndex,
    BadRemoveIndex,
    /// The store holds no note at all.
    NoNotes,
    /// The store holds notes, but none of the category asked for.
    NoMatch { category: Option<String> },
    Listed { entries: Vec<ListEntry> },
    Added,
    Edited,
    Removed,
    /// The position given to an edit or a removal names no note.
    NoSuchNote,
}

/// The content of an outcome.
pub enum OutcomeView {
    Usage,
    EditUsage,
    RemoveUsage,
    AddUsage,
    BadEditIndex,
    BadRemoveIndex,
    NoNotes,
    NoMatch { category: Option<Seq<char>> },
    Listed { entries: Seq<(int, NoteView)> },
    Added,
    Edited,
    Removed,
    NoSuchNote,
}

impl View for Outcome {
    type V = OutcomeView;

    open spec fn view(&self) -> OutcomeView {
        match self {
            Outcome::Usage => OutcomeView::Usage,
            Outcome::EditUsage => OutcomeView::EditUsage,
            Outcome::RemoveUsage => OutcomeView::RemoveUsage,
            Outcome::AddUsage => OutcomeView::AddUsage,
            Outcome::BadEditIndex => OutcomeView::BadEditIndex,
            Outcome::BadRemoveIndex => OutcomeView::BadRemoveIndex,
            Outcome::NoNotes => OutcomeView::NoNotes,
            Outcome::NoMatch { category } => OutcomeView::NoMatch {
                category: match category {
                    None => None,
                    Some(c) => Some(c@),
                },
            },
            Outcome::Listed { entries } => OutcomeView::Listed { entries: entries_view(entries@) },
            Outcome::Added => OutcomeView::Added,
            Outcome::Edited => OutcomeView::Edited,
            Outcome::Removed => OutcomeView::Removed,
            Outcome::NoSuchNote => OutcomeView::NoSuchNote,
        }
    }
}

/// Whether an outcome leaves a changed store behind, to be written back.
pub open spec fn changes_store(o: OutcomeView) -> bool {
    o is Added || o is Edited || o is Removed
}

/// What a command does to a store of content `n`: the outcome, and the store after it.
pub open spec fn step(cmd: CommandView, n: Seq<NoteView>) -> (OutcomeView, Seq<NoteView>) {
    match cmd {
        CommandView::Usage => (OutcomeView::Usage, n),
        CommandView::EditUsage => (OutcomeView::EditUsage, n),
        CommandView::RemoveUsage => (OutcomeView::RemoveUsage, n),
        CommandView::AddUsage => (OutcomeView::AddUsage, n),
        CommandView::BadEditIndex => (OutcomeView::BadEditIndex, n),
        CommandView::BadRemoveIndex => (OutcomeView::BadRemoveIndex, n),
        CommandView::List { filter } => if n.len() == 0 {
            (OutcomeView::NoNotes, n)
        } else if listing(n, filter).len() == 0 {
            (OutcomeView::NoMatch { category: filter }, n)
        } else {
            (OutcomeView::Listed { entries: listing(n, filter) }, n)
        },
        CommandView::Edit { position, text, category } => if 1 <= position <= n.len() {
            (OutcomeView::Edited, n.update(position - 1, NoteView { text, category }))
        } else {
            (OutcomeView::NoSuchNote, n)
        },
        CommandView::Remove { position } => if 1 <= position <= n.len() {
            (OutcomeView::Removed, n.remove(position - 1))
        } else {
            (OutcomeView::NoSuchNote, n)
        },
        CommandView::Add { text, category } => (
            OutcomeView::Added,
            n.push(NoteView { text, category }),
        ),
    }
}

/// Runs `cmd` against the store `notes`, changing it where the command asks.
pub fn execute(cmd: Command, notes: &mut Vec<Note>) -> (r: Outcome)
    ensures
        (r@, notes_view(final(notes)@)) == step(cmd@, notes_view(old(notes)@)),
{
    match cmd {
        Command::Usage => Outcome::Usage,
        Command::EditUsage => Outcome::EditUsage,
        Command::RemoveUsage => Outcome::RemoveUsage,
        Command::AddUsage => Outcome::AddUsage,
        Command::BadEditIndex => Outcome::BadEditIndex,
        Command::BadRemoveIndex => Outcome::BadRemoveIndex,
        Command::List { filter } => {
            if notes.len() == 0 {
                return Outcome::NoNotes;
            }
            let entries = list(notes, filter.as_ref());
            if entries.len() == 0 {
                Outcome::NoMatch { category: filter }
            } else {
                Outcome::Listed { entries }
            }
        },
        Command::Edit { position, text, category } => {
            if position == 0 {
                return Outcome::NoSuchNote;
            }
            match edit_by_index(notes, position - 1, text, category) {
                Ok(()) => Outcome::Edited,
                Err(_) => Outcome::NoSuchNote,
            }
        },
        Command::Remove { position } => {
            if position == 0 {
                return Outcome::NoSuchNote;
            }
            match remove_by_index(notes, position - 1) {
                Ok(()) => Outcome::Removed,
                Err(_) => Outcome::NoSuchNote,
            }
        },
        Command::Add { text, category } => {
            crate::ops::add(notes, text, category);
            Outcome::Added
        },
    }
}

} // verus!
