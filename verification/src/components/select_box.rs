//! A box that shows one of several options.

use vstd::prelude::*;

verus! {

/// Which option of a box is selected.
pub struct SelectBoxState {
    pub selected_index: usize,
}

/// A box with a title and options to choose from.
pub struct SelectBox {
    pub options: Vec<String>,
    pub title: String,
}

/// What a box shows: its title, the selected option, and the mark that
/// says that there are more.
pub struct SelectBoxLine {
    pub title: String,
    pub selected: String,
    pub mark: char,
}

impl SelectBox {
    /// The option that is shown: the selected one, or nothing where the
    /// selection points past the options.
    pub open spec fn spec_selected(&self, state: &SelectBoxState) -> Seq<char> {
        if state.selected_index < self.options@.len() {
            self.options@[state.selected_index as int]@
        } else {
            Seq::<char>::empty()
        }
    }

    /// What the box shows for the selection.
    pub fn render(&self, state: &SelectBoxState) -> (r: SelectBoxLine)
        ensures
            r.title@ == self.title@,
            r.selected@ == self.spec_selected(state),
            r.mark == '\u{2195}',
    {
        let selected = if state.selected_index < self.options.len() {
            self.options[state.selected_index].clone()
        } else {
            String::new()
        };
        SelectBoxLine { title: self.title.clone(), selected, mark: '\u{2195}' }
    }
}

} // verus!
