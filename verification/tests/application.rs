use finance_app::application::{correct_format, user_exists_from_count, Action, FinanceApp, Message};
use finance_app::error::QueryError;
use finance_app::pages::notes_page::NotesCategory;
use finance_app::pages::Page;
use finance_app::user::User;

fn registration_app() -> FinanceApp {
    let (app, action) = FinanceApp::new();
    assert_eq!(action, Action::ConnectToDb);
    app
}

fn notes_app_with_user() -> FinanceApp {
    let mut app = registration_app();
    app.update(Message::ToLoginPage);
    let action = app.update(Message::LoggedIn(Ok(User::new(
        7,
        None,
        None,
        "nick".to_string(),
    ))));
    assert_eq!(action, Action::LoadUserData(7));
    app
}

#[test]
fn title_is_fixed() {
    let app = registration_app();
    assert_eq!(app.title(), "FinanceApp");
}

#[test]
fn new_starts_on_the_registration_page() {
    let (app, action) = FinanceApp::new();
    assert_eq!(action, Action::ConnectToDb);
    assert!(app.user.is_none());
    assert!(app.data_base_error.is_none());
    assert!(app.query_error.is_none());
    match app.page {
        Page::RegistrationPage(login) => assert!(!login.is_registered()),
        _ => panic!("a fresh application must open the registration page"),
    }
}

#[test]
fn correct_format_accepts_letters_only() {
    assert!(correct_format("Abc"));
    assert!(correct_format(""));
    assert!(!correct_format("a b"));
    assert!(!correct_format("ab1"));
}

#[test]
fn user_exists_exactly_when_the_count_is_nonzero() {
    assert!(!user_exists_from_count(0));
    assert!(user_exists_from_count(1));
    assert!(user_exists_from_count(17));
}

#[test]
fn sign_up_with_a_valid_pair_asks_for_the_existence_check() {
    let mut app = registration_app();
    app.update(Message::LoginChanged("me".to_string()));
    app.update(Message::PasswordChanged("abcDEF123".to_string()));
    app.update(Message::RepeatPasswordChanged("abcDEF123".to_string()));
    let action = app.update(Message::SignUp);
    assert_eq!(action, Action::IsUserExists("me".to_string()));
}

#[test]
fn sign_up_with_a_bad_password_stays_put() {
    let mut app = registration_app();
    app.update(Message::PasswordChanged("short".to_string()));
    let action = app.update(Message::SignUp);
    assert_eq!(action, Action::Idle);
}

#[test]
fn an_existing_login_blocks_registration() {
    let mut app = registration_app();
    app.update(Message::LoginChanged("me".to_string()));
    let action = app.update(Message::TryToCreateUser(Ok(true)));
    assert_eq!(action, Action::Idle);
    match &app.page {
        Page::RegistrationPage(login) => assert!(login.get_registration_error().is_some()),
        _ => panic!("registration must stay on its page"),
    }
}

#[test]
fn a_free_login_is_inserted() {
    let mut app = registration_app();
    app.update(Message::LoginChanged("me".to_string()));
    app.update(Message::PasswordChanged("abcDEF123".to_string()));
    app.update(Message::RepeatPasswordChanged("abcDEF123".to_string()));
    let action = app.update(Message::TryToCreateUser(Ok(false)));
    assert_eq!(
        action,
        Action::AddUser("me".to_string(), "abcDEF123".to_string())
    );
}

#[test]
fn a_created_user_lands_on_the_notes_page() {
    let mut app = registration_app();
    let action = app.update(Message::UserCreated(Ok(())));
    assert_eq!(action, Action::Idle);
    assert!(matches!(app.page, Page::NotesPage(_)));
}

#[test]
fn a_failed_query_is_recorded() {
    let mut app = registration_app();
    let action = app.update(Message::TryToCreateUser(Err(QueryError::PoolProblem)));
    assert_eq!(action, Action::Idle);
    assert_eq!(app.query_error, Some(QueryError::PoolProblem));
}

#[test]
fn log_in_hands_the_typed_pair_to_the_runner() {
    let mut app = registration_app();
    app.update(Message::ToLoginPage);
    assert!(matches!(app.page, Page::LoginPage(_)));
    app.update(Message::LoginChanged("me".to_string()));
    app.update(Message::PasswordChanged("abcDEF123".to_string()));
    let action = app.update(Message::LogIn);
    assert_eq!(
        action,
        Action::LogIn("me".to_string(), "abcDEF123".to_string())
    );
}

#[test]
fn a_successful_login_loads_the_users_data() {
    let app = notes_app_with_user();
    assert!(matches!(app.page, Page::NotesPage(_)));
    assert_eq!(app.user.as_ref().map(|u| u.get_id()), Some(7));
}

#[test]
fn a_missing_row_reports_wrong_credentials() {
    let mut app = registration_app();
    app.update(Message::ToLoginPage);
    let action = app.update(Message::LoggedIn(Err(QueryError::NoResultFound)));
    assert_eq!(action, Action::Idle);
    match &app.page {
        Page::LoginPage(login) => assert!(login.get_login_error().is_some()),
        _ => panic!("a failed login must stay on the login page"),
    }
}

#[test]
fn other_login_failures_show_no_field_verdict() {
    let mut app = registration_app();
    app.update(Message::ToLoginPage);
    let action = app.update(Message::LoggedIn(Err(QueryError::PoolProblem)));
    assert_eq!(action, Action::Idle);
    match &app.page {
        Page::LoginPage(login) => assert!(login.get_login_error().is_none()),
        _ => panic!("a failed login must stay on the login page"),
    }
}

#[test]
fn changing_category_switches_the_section() {
    let mut app = notes_app_with_user();
    app.update(Message::ChangeCategory(NotesCategory::ExpensesState));
    match &app.page {
        Page::NotesPage(notes) => {
            assert_eq!(notes.current_category, NotesCategory::ExpensesState)
        },
        _ => panic!("the notes page must stay up"),
    }
}

#[test]
fn the_exit_dialog_opens_and_can_be_declined() {
    let mut app = notes_app_with_user();
    app.update(Message::TryToExit);
    match &app.page {
        Page::NotesPage(notes) => assert!(notes.show_modal),
        _ => panic!("the notes page must stay up"),
    }
    app.update(Message::ExitNotAccepted);
    match &app.page {
        Page::NotesPage(notes) => assert!(!notes.show_modal),
        _ => panic!("the notes page must stay up"),
    }
}

#[test]
fn accepting_the_exit_signs_the_user_out() {
    let mut app = notes_app_with_user();
    app.update(Message::TryToExit);
    app.update(Message::ExitAccepted);
    assert!(app.user.is_none());
    assert!(matches!(app.page, Page::LoginPage(_)));
}

#[test]
fn a_malformed_profile_name_is_flagged_and_not_saved() {
    let mut app = notes_app_with_user();
    app.update(Message::ProfileNameChanged("x1".to_string()));
    match &app.page {
        Page::NotesPage(notes) => assert!(notes.name_input_error.is_some()),
        _ => panic!("the notes page must stay up"),
    }
    app.update(Message::SaveChangedName);
    assert_eq!(app.user.as_ref().unwrap().first_name, None);
}

#[test]
fn a_wellformed_profile_name_is_saved() {
    let mut app = notes_app_with_user();
    app.update(Message::ProfileNameChanged("Ann".to_string()));
    app.update(Message::SaveChangedName);
    assert_eq!(
        app.user.as_ref().unwrap().first_name,
        Some("Ann".to_string())
    );
}

#[test]
fn an_empty_profile_surname_is_not_saved() {
    let mut app = notes_app_with_user();
    app.update(Message::ProfileSurnameChanged("".to_string()));
    app.update(Message::SaveChangedSurname);
    assert_eq!(app.user.as_ref().unwrap().last_name, None);
}

#[test]
fn a_wellformed_profile_surname_is_saved() {
    let mut app = notes_app_with_user();
    app.update(Message::ProfileSurnameChanged("Smith".to_string()));
    app.update(Message::SaveChangedSurname);
    assert_eq!(
        app.user.as_ref().unwrap().last_name,
        Some("Smith".to_string())
    );
}

#[test]
fn a_connection_error_is_recorded_on_the_registration_page() {
    let mut app = registration_app();
    let action = app.update(Message::ConnectToDB(Err(
        finance_app::application::DataBaseError::DataBaseConnectionErr,
    )));
    assert_eq!(action, Action::Idle);
    assert!(app.data_base_error.is_some());
}

#[test]
fn messages_a_page_does_not_listen_to_change_nothing() {
    let mut app = registration_app();
    let action = app.update(Message::TryToExit);
    assert_eq!(action, Action::Idle);
    assert!(matches!(app.page, Page::RegistrationPage(_)));
}
