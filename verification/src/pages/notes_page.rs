//! The notes page: which category is open, whether the exit dialog is up,
//! and the form fields for records and for profile edits.
use vstd::prelude::*;

verus! {

/// The sections the notes page can show.
#[derive(Clone, Copy, Debug, PartialEq, Eq, Structural)]
pub enum NotesCategory {
    MyProfile,
    IncomesState,
    ExpensesState,
}

/// Why a profile input is rejected.
#[derive(Debug)]
pub enum InputError {
    WrongPassword,
    IncorrectFormat,
}

/// The notes page's state. All of it is owned by the page: the modal overlay
/// itself stays stateless and is rebuilt from `show_modal` each frame.
pub struct Notes {
    pub current_category: NotesCategory,
    pub show_modal: bool,
    pub name_input: String,
    pub price_input: String,
    pub category_input: String,
    pub date_input: String,
    pub profile_name_input: String,
    pub profile_surname_input: String,
    pub name_input_error: Option<InputError>,
    pub surname_input_error: Option<InputError>,
}

impl Notes {
    /// A fresh notes page: the profile section open, no modal, every field
    /// empty and unflagged.
    pub open spec fn spec_fresh(self) -> bool {
        &&& self.current_category == NotesCategory::MyProfile
        &&& !self.show_modal
        &&& self.name_input@ == Seq::<char>::empty()
        &&& self.price_input@ == Seq::<char>::empty()
        &&& self.category_input@ == Seq::<char>::empty()
        &&& self.date_input@ == Seq::<char>::empty()
        &&& self.profile_name_input@ == Seq::<char>::empty()
        &&& self.profile_surname_input@ == Seq::<char>::empty()
        &&& self.name_input_error is None
        &&& self.surname_input_error is None
    }

    pub fn new() -> (r: Self)
        ensures
            r.spec_fresh(),
    {
        Notes {
            current_category: NotesCategory::MyProfile,
            show_modal: false,
            name_input: String::new(),
            price_input: String::new(),
            category_input: String::new(),
            date_input: String::new(),
            profile_name_input: String::new(),
            profile_surname_input: String::new(),
            name_input_error: None,
            surname_input_error: None,
        }
    }
}

} // verus!
