//! The application's pages, and which one is on screen.
use vstd::prelude::*;
use crate::pages::notes_page::Notes;
use crate::pages::registration_login_page::Login;

pub mod notes_page;
pub mod registration_login_page;

verus! {

/// Which page the application currently shows. The login and registration
/// pages share their form state; the notes page has its own.
pub enum Page {
    LoginPage(Login),
    RegistrationPage(Login),
    NotesPage(Notes),
}

} // verus!
