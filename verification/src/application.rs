//! The application's top-level state machine: which page is up, who is
//! signed in, and how each message moves the state and what work it asks of
//! the runner.
//!
//! The machine is synchronous and never blocks: every database call the
//! flow needs is returned as an [`Action`] for the runner to perform, and
//! its outcome comes back as a later [`Message`]. The connection
//! pool itself stays with the runner; the machine only learns whether
//! connecting succeeded.
use vstd::prelude::*;
use crate::error::QueryError;
use crate::expense::Expense;
use crate::income::Income;
use crate::pages::Page;
use crate::pages::notes_page::{InputError, Notes, NotesCategory};
use crate::pages::registration_login_page::{Login, LoginError, RegistrationError};
use crate::user::User;

verus! {

/// What can go wrong around the database outside a single query.
#[derive(Clone, Debug)]
pub enum DataBaseError {
    DataBaseConnectionErr,
    GetUserErr,
    CreateUserErr,
}

/// Everything the update loop can be told: field edits, page switches, and
/// the outcomes of the asynchronous work the runner performed.
#[derive(Debug)]
pub enum Message {
    ConnectToDB(Result<(), DataBaseError>),
    LoginChanged(String),
    PasswordChanged(String),
    RepeatPasswordChanged(String),
    TryToCreateUser(Result<bool, QueryError>),
    UserCreated(Result<(), QueryError>),
    SignUp,
    ToLoginPage,
    ToRegistrationPage,
    LogIn,
    LoggedIn(Result<User, QueryError>),
    ChangeCategory(NotesCategory),
    TryToExit,
    ExitAccepted,
    ExitNotAccepted,
    ProfileNameChanged(String),
    ProfileSurnameChanged(String),
    SaveChangedName,
    SaveChangedSurname,
    LoadIncomes(Result<Vec<Income>, QueryError>),
    LoadExpenses(Result<Vec<Expense>, QueryError>),
}

/// The asynchronous work one update step asks of the runner. The runner
/// performs it against its connection pool and feeds the outcome back as the
/// matching message.
#[derive(Clone, Debug, PartialEq)]
pub enum Action {
    /// Nothing to do.
    Idle,
    /// Connect to the database; reply with `ConnectToDB`.
    ConnectToDb,
    /// Ask whether a user with this login exists; reply with
    /// `TryToCreateUser`.
    IsUserExists(String),
    /// Insert a user with this login and password; reply with `UserCreated`.
    AddUser(String, String),
    /// Look the user up by login and password; reply with `LoggedIn`.
    LogIn(String, String),
    /// Fetch this user's incomes and expenses; reply with `LoadIncomes` and
    /// `LoadExpenses`.
    LoadUserData(i32),
}

/// A profile input's accepted shape: ASCII letters only (the empty input
/// passes; it is separately ignored on save).
pub open spec fn is_name_char(c: char) -> bool {
    ||| ('a' as u32) <= (c as u32) <= ('z' as u32)
    ||| ('A' as u32) <= (c as u32) <= ('Z' as u32)
}

pub open spec fn spec_correct_format(s: Seq<char>) -> bool {
    forall|i: int| 0 <= i < s.len() ==> is_name_char(s[i])
}

/// Does the profile input hold nothing but ASCII letters?
pub fn correct_format(input: &str) -> (r: bool)
    ensures
        r == spec_correct_format(input@),
{
    let n = input.unicode_len();
    let mut i: usize = 0;
    while i < n
        invariant
            n == input@.len(),
            0 <= i <= n,
            forall|j: int| 0 <= j < i ==> is_name_char(input@[j]),
        decreases n - i,
    {
        let c = input.get_char(i);
        let v = c as u32;
        let lower = v >= ('a' as u32) && v <= ('z' as u32);
        let upper = v >= ('A' as u32) && v <= ('Z' as u32);
        if !(lower || upper) {
            return false;
        }
        i += 1;
    }
    true
}

/// The existence check behind `SignUp`: the runner counts the rows carrying
/// the login, and the user exists exactly when the count is not zero.
pub fn user_exists_from_count(users_count: i32) -> (r: bool)
    ensures
        r == (users_count != 0),
{
    match users_count {
        0 => false,
        _ => true,
    }
}

/// The application's whole state between two update steps.
pub struct FinanceApp {
    pub page: Page,
    pub user: Option<User>,
    pub data_base_error: Option<DataBaseError>,
    pub query_error: Option<QueryError>,
}

/// The fields an update step leaves alone when it only replaces the page.
pub open spec fn same_but_page(pre: FinanceApp, post: FinanceApp) -> bool {
    &&& post.user == pre.user
    &&& post.data_base_error == pre.data_base_error
    &&& post.query_error == pre.query_error
}

/// When an update step may run: the save and load messages on the notes page
/// reach into the signed-in user, so one must be there.
pub open spec fn spec_update_requires(pre: FinanceApp, m: Message) -> bool {
    match pre.page {
        Page::NotesPage(n) => match m {
            Message::SaveChangedName => (n.name_input_error is None
                && n.profile_name_input@.len() > 0) ==> pre.user is Some,
            Message::SaveChangedSurname => (n.surname_input_error is None
                && n.profile_surname_input@.len() > 0) ==> pre.user is Some,
            Message::LoadIncomes(r) => r is Ok ==> pre.user is Some,
            Message::LoadExpenses(r) => r is Ok ==> pre.user is Some,
            _ => true,
        },
        _ => true,
    }
}

/// One update step, in full: given the state and the message, the state left
/// behind and the action handed to the runner. Messages a page does not
/// listen to leave the state alone.
pub open spec fn spec_update(pre: FinanceApp, m: Message, post: FinanceApp, act: Action) -> bool {
    match pre.page {
        Page::RegistrationPage(login) => match m {
            Message::LoginChanged(s) => {
                &&& post == (FinanceApp {
                    page: Page::RegistrationPage((Login { login_field: s, ..login })),
                    ..pre
                })
                &&& act == Action::Idle
            },
            Message::PasswordChanged(s) => {
                let (l2, _ok) = (Login { password_field: s, ..login }).spec_check_password();
                &&& post == (FinanceApp { page: Page::RegistrationPage(l2), ..pre })
                &&& act == Action::Idle
            },
            Message::RepeatPasswordChanged(s) => {
                let (l2, _ok) = (Login {
                    repeat_password_field: Some(s),
                    ..login
                }).spec_check_password();
                &&& post == (FinanceApp { page: Page::RegistrationPage(l2), ..pre })
                &&& act == Action::Idle
            },
            Message::ConnectToDB(res) => match res {
                Ok(_) => post == pre && act == Action::Idle,
                Err(e) => {
                    &&& post == (FinanceApp { data_base_error: Some(e), ..pre })
                    &&& act == Action::Idle
                },
            },
            Message::SignUp => {
                let (l2, ok) = login.spec_check_password();
                &&& post == (FinanceApp { page: Page::RegistrationPage(l2), ..pre })
                &&& act == if ok {
                    Action::IsUserExists(l2.login_field)
                } else {
                    Action::Idle
                }
            },
            Message::TryToCreateUser(res) => match res {
                Ok(true) => {
                    &&& post == (FinanceApp {
                        page: Page::RegistrationPage(
                            (Login {
                                registration_error: Some(RegistrationError::UserAlreadyExists),
                                ..login
                            }),
                        ),
                        ..pre
                    })
                    &&& act == Action::Idle
                },
                Ok(false) => {
                    &&& post == pre
                    &&& act == Action::AddUser(login.login_field, login.password_field)
                },
                Err(e) => {
                    &&& post == (FinanceApp { query_error: Some(e), ..pre })
                    &&& act == Action::Idle
                },
            },
            Message::UserCreated(res) => match res {
                Ok(_) => {
                    &&& post.page matches Page::NotesPage(n) && n.spec_fresh()
                    &&& same_but_page(pre, post)
                    &&& act == Action::Idle
                },
                Err(_) => post == pre && act == Action::Idle,
            },
            Message::ToLoginPage => {
                &&& post.page matches Page::LoginPage(l) && l.spec_fresh_login_page()
                &&& same_but_page(pre, post)
                &&& act == Action::Idle
            },
            _ => post == pre && act == Action::Idle,
        },
        Page::LoginPage(login) => match m {
            Message::LoginChanged(s) => {
                &&& post == (FinanceApp {
                    page: Page::LoginPage((Login { login_field: s, ..login })),
                    ..pre
                })
                &&& act == Action::Idle
            },
            Message::PasswordChanged(s) => {
                &&& post == (FinanceApp {
                    page: Page::LoginPage((Login { password_field: s, ..login })),
                    ..pre
                })
                &&& act == Action::Idle
            },
            Message::ToRegistrationPage => {
                &&& post.page matches Page::RegistrationPage(l) && l.spec_fresh_registration_page()
                &&& same_but_page(pre, post)
                &&& act == Action::Idle
            },
            Message::LogIn => {
                &&& post == pre
                &&& act == Action::LogIn(login.login_field, login.password_field)
            },
            Message::LoggedIn(res) => match res {
                Ok(user) => {
                    &&& post.page matches Page::NotesPage(n) && n.spec_fresh()
                    &&& post.user == Some(user)
                    &&& post.data_base_error == pre.data_base_error
                    &&& post.query_error == pre.query_error
                    &&& act == Action::LoadUserData(user.id)
                },
                Err(e) => {
                    &&& post == if e == QueryError::NoResultFound {
                        (FinanceApp {
                            page: Page::LoginPage(
                                (Login {
                                    login_error: Some(LoginError::WrongPasswordOrLogin),
                                    ..login
                                }),
                            ),
                            ..pre
                        })
                    } else {
                        pre
                    }
                    &&& act == Action::Idle
                },
            },
            _ => post == pre && act == Action::Idle,
        },
        Page::NotesPage(n) => match m {
            Message::ChangeCategory(c) => {
                &&& post == (FinanceApp {
                    page: Page::NotesPage((Notes { current_category: c, ..n })),
                    ..pre
                })
                &&& act == Action::Idle
            },
            Message::TryToExit => {
                &&& post == (FinanceApp {
                    page: Page::NotesPage((Notes { show_modal: true, ..n })),
                    ..pre
                })
                &&& act == Action::Idle
            },
            Message::ExitAccepted => {
                &&& post.page matches Page::LoginPage(l) && l.spec_fresh_login_page()
                &&& post.user is None
                &&& post.data_base_error == pre.data_base_error
                &&& post.query_error == pre.query_error
                &&& act == Action::Idle
            },
            Message::ExitNotAccepted => {
                &&& post == (FinanceApp {
                    page: Page::NotesPage((Notes { show_modal: false, ..n })),
                    ..pre
                })
                &&& act == Action::Idle
            },
            Message::ProfileNameChanged(name) => {
                &&& post == (FinanceApp {
                    page: Page::NotesPage(
                        (Notes {
                            name_input_error: if spec_correct_format(name@) {
                                None
                            } else {
                                Some(InputError::IncorrectFormat)
                            },
                            profile_name_input: name,
                            ..n
                        }),
                    ),
                    ..pre
                })
                &&& act == Action::Idle
            },
            Message::ProfileSurnameChanged(surname) => {
                &&& post == (FinanceApp {
                    page: Page::NotesPage(
                        (Notes {
                            surname_input_error: if spec_correct_format(surname@) {
                                None
                            } else {
                                Some(InputError::IncorrectFormat)
                            },
                            profile_surname_input: surname,
                            ..n
                        }),
                    ),
                    ..pre
                })
                &&& act == Action::Idle
            },
            Message::SaveChangedName => {
                &&& act == Action::Idle
                &&& post == if n.name_input_error is None && n.profile_name_input@.len() > 0 {
                    (FinanceApp {
                        user: Some(
                            (User { first_name: Some(n.profile_name_input), ..pre.user->0 }),
                        ),
                        ..pre
                    })
                } else {
                    pre
                }
            },
            Message::SaveChangedSurname => {
                &&& act == Action::Idle
                &&& post == if n.surname_input_error is None && n.profile_surname_input@.len()
                    > 0 {
                    (FinanceApp {
                        user: Some(
                            (User { last_name: Some(n.profile_surname_input), ..pre.user->0 }),
                        ),
                        ..pre
                    })
                } else {
                    pre
                }
            },
            Message::LoadIncomes(res) => match res {
                Ok(incomes) => {
                    &&& post == (FinanceApp {
                        user: Some((User { incomes: Some(incomes), ..pre.user->0 })),
                        ..pre
                    })
                    &&& act == Action::Idle
                },
                Err(_) => post == pre && act == Action::Idle,
            },
            Message::LoadExpenses(res) => match res {
                Ok(expenses) => {
                    &&& post == (FinanceApp {
                        user: Some((User { expenses: Some(expenses), ..pre.user->0 })),
                        ..pre
                    })
                    &&& act == Action::Idle
                },
                Err(_) => post == pre && act == Action::Idle,
            },
            _ => post == pre && act == Action::Idle,
        },
    }
}

impl FinanceApp {
    /// The window title.
    pub fn title(&self) -> (r: String)
        ensures
            r@ == "FinanceApp"@,
    {
        "FinanceApp".to_owned()
    }

    /// Starting state: the registration page, nobody signed in, no errors —
    /// and the one startup action, connecting to the database.
    pub fn new() -> (r: (Self, Action))
        ensures
            r.0.page matches Page::RegistrationPage(l) && l.spec_fresh_registration_page(),
            r.0.user is None,
            r.0.data_base_error is None,
            r.0.query_error is None,
            r.1 == Action::ConnectToDb,
    {
        (
            Self {
                page: Page::RegistrationPage(Login::new_registration_page()),
                user: None,
                data_base_error: None,
                query_error: None,
            },
            Action::ConnectToDb,
        )
    }

    /// Deliver one message: move the state as the current page dictates and
    /// hand back the work the runner must perform.
    pub fn update(&mut self, message: Message) -> (r: Action)
        requires
            spec_update_requires(*old(self), message),
        ensures
            spec_update(*old(self), message, *final(self), r),
    {
        match &mut self.page {
            Page::RegistrationPage(login) => match message {
                Message::LoginChanged(login_field) => {
                    login.change_login(login_field);
                    Action::Idle
                },
                Message::PasswordChanged(password_field) => {
                    login.change_password(password_field);
                    let _ = login.check_password();
                    Action::Idle
                },
                Message::RepeatPasswordChanged(repeated_password_field) => {
                    login.change_repeated_password(repeated_password_field);
                    let _ = login.check_password();
                    Action::Idle
                },
                Message::ConnectToDB(Ok(_)) => {
                    // The runner keeps the pool it connected; nothing to record.
                    Action::Idle
                },
                Message::ConnectToDB(Err(connection_err)) => {
                    self.data_base_error = Some(connection_err);
                    Action::Idle
                },
                Message::SignUp => {
                    if login.check_password() {
                        Action::IsUserExists(login.login_field.clone())
                    } else {
                        Action::Idle
                    }
                },
                Message::TryToCreateUser(is_user_already_exists) => {
                    match is_user_already_exists {
                        Ok(true) => {
                            login.set_registration_error(
                                Some(RegistrationError::UserAlreadyExists),
                            );
                            Action::Idle
                        },
                        Ok(false) => {
                            Action::AddUser(
                                login.login_field.clone(),
                                login.password_field.clone(),
                            )
                        },
                        Err(error) => {
                            self.query_error = Some(error);
                            Action::Idle
                        },
                    }
                },
                Message::UserCreated(Ok(_)) => {
                    login.registered();
                    self.page = Page::NotesPage(Notes::new());
                    Action::Idle
                },
                Message::ToLoginPage => {
                    self.page = Page::LoginPage(Login::new_login_page());
                    Action::Idle
                },
                _ => Action::Idle,
            },
            Page::LoginPage(login) => match message {
                Message::LoginChanged(login_field) => {
                    login.change_login(login_field);
                    Action::Idle
                },
                Message::PasswordChanged(password) => {
                    login.change_password(password);
                    Action::Idle
                },
                Message::ToRegistrationPage => {
                    self.page = Page::RegistrationPage(Login::new_registration_page());
                    Action::Idle
                },
                Message::LogIn => {
                    Action::LogIn(login.login_field.clone(), login.password_field.clone())
                },
                Message::LoggedIn(Ok(user)) => {
                    let id = user.get_id();
                    self.user = Some(user);
                    login.set_login_error(None);
                    self.page = Page::NotesPage(Notes::new());
                    Action::LoadUserData(id)
                },
                Message::LoggedIn(Err(err)) => {
                    if matches!(err, QueryError::NoResultFound) {
                        login.set_login_error(Some(LoginError::WrongPasswordOrLogin));
                    }
                    Action::Idle
                },
                _ => Action::Idle,
            },
            Page::NotesPage(notes_page) => match message {
                Message::ChangeCategory(new_category) => {
                    if notes_page.current_category == new_category {
                        Action::Idle
                    } else {
                        notes_page.current_category = new_category;
                        Action::Idle
                    }
                },
                Message::TryToExit => {
                    notes_page.show_modal = true;
                    Action::Idle
                },
                Message::ExitAccepted => {
                    notes_page.show_modal = false;
                    self.user = None;
                    self.page = Page::LoginPage(Login::new_login_page());
                    Action::Idle
                },
                Message::ExitNotAccepted => {
                    notes_page.show_modal = false;
                    Action::Idle
                },
                Message::ProfileNameChanged(name) => {
                    notes_page.profile_name_input = name;
                    if correct_format(notes_page.profile_name_input.as_str()) {
                        notes_page.name_input_error = None;
                    } else {
                        notes_page.name_input_error = Some(InputError::IncorrectFormat);
                    }
                    Action::Idle
                },
                Message::ProfileSurnameChanged(surname) => {
                    notes_page.profile_surname_input = surname;
                    if correct_format(notes_page.profile_surname_input.as_str()) {
                        notes_page.surname_input_error = None;
                    } else {
                        notes_page.surname_input_error = Some(InputError::IncorrectFormat);
                    }
                    Action::Idle
                },
                Message::SaveChangedName => {
                    if notes_page.name_input_error.is_none() && !notes_page.profile_name_input.as_str().is_empty() {
                        let mut u = self.user.take().unwrap();
                        u.first_name = Some(notes_page.profile_name_input.clone());
                        self.user = Some(u);
                    }
                    Action::Idle
                },
                Message::SaveChangedSurname => {
                    if notes_page.surname_input_error.is_none() && !notes_page.profile_surname_input.as_str().is_empty() {
                        let mut u = self.user.take().unwrap();
                        u.last_name = Some(notes_page.profile_surname_input.clone());
                        self.user = Some(u);
                    }
                    Action::Idle
                },
                Message::LoadIncomes(Ok(incomes)) => {
                    let mut u = self.user.take().unwrap();
                    u.add_incomes_to_user(incomes);
                    self.user = Some(u);
                    Action::Idle
                },
                Message::LoadExpenses(Ok(expenses)) => {
                    let mut u = self.user.take().unwrap();
                    u.add_expenses_to_user(expenses);
                    self.user = Some(u);
                    Action::Idle
                },
                _ => Action::Idle,
            },
        }
    }
}

} // verus!
