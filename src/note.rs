use vstd::prelude::*;

verus! {

/// A short text tagged with a free-form category label.
pub struct Note {
    pub text: String,
    pub category: String,
}

/// The mathematical content of a note.
pub struct NoteView {
    pub text: Seq<char>,
    pub category: Seq<char>,
}

impl View for Note {
    type V = NoteView;

    open spec fn view(&self) -> NoteView {
        NoteView { text: self.text@, category: self.category@ }
    }
}

/// The content of a whole store, note by note.
pub open spec fn notes_view(notes: Seq<Note>) -> Seq<NoteView> {
    notes.map_values(|n: Note| n@)
}

impl Note {
    pub fn new(text: String, category: String) -> (r: Note)
        ensures
            r.text@ == text@,
            r.category@ == category@,
    {
        Note { text, category }
    }

    pub fn duplicate(&self) -> (r: Note)
        ensures
            r@ == self@,
    {
        Note { text: self.text.clone(), category: self.category.clone() }
    }
}

} // verus!
