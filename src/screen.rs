use vstd::prelude::*;

use crate::form::{all_filled, descriptions_of, App};
use crate::template::{document, selected_license_name};

verus! {

/// The marker of one field in the progress line.
#[derive(Clone, Copy, Debug, PartialEq, Eq, Structural)]
pub enum Mark {
    /// The active field.
    Current,
    /// Another field with a value.
    Filled,
    /// Another field without a value.
    Empty,
}

/// What the side panel shows.
pub enum SidePanel {
    /// The live preview of the document.
    Preview(String),
    /// The help text of the active field.
    Description(String),
}

/// The marker of field `i`.
pub open spec fn mark_of(app: &App, i: int) -> Mark {
    if i == app.current_field as int {
        Mark::Current
    } else if app.fields@[i].value@.len() > 0 {
        Mark::Filled
    } else {
        Mark::Empty
    }
}

impl App {
    /// One marker per field, in order.
    pub fn progress(&self) -> (r: Vec<Mark>)
        ensures
            r@.len() == self.fields@.len(),
            forall|i: int| 0 <= i < r@.len() ==> r@[i] == mark_of(self, i),
    {
        let mut marks: Vec<Mark> = Vec::new();
        let mut i: usize = 0;
        while i < self.fields.len()
            invariant
                i <= self.fields@.len(),
                marks@.len() == i,
                forall|j: int| 0 <= j < i ==> marks@[j] == mark_of(self, j),
            decreases self.fields@.len() - i,
        {
            if i == self.current_field {
                marks.push(Mark::Current);
            } else if !self.fields[i].value.as_str().is_empty() {
                marks.push(Mark::Filled);
            } else {
                marks.push(Mark::Empty);
            }
            i = i + 1;
        }
        marks
    }

    /// The preview once every field has a value, else the help text of the
    /// active field.
    pub fn side_panel(&self) -> (r: SidePanel)
        requires
            self.wf(),
        ensures
            match r {
                SidePanel::Preview(t) => all_filled(self@.values) && t@ == document(
                    self@.values,
                    selected_license_name(self),
                    false,
                ),
                SidePanel::Description(t) => !all_filled(self@.values) && t@ == descriptions_of(
                    self.fields@,
                )[self.current_field as int],
            },
    {
        if self.all_fields_filled() {
            SidePanel::Preview(self.generate_preview())
        } else {
            SidePanel::Description(self.fields[self.current_field].description.clone())
        }
    }
}

} // verus!
