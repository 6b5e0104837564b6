use finance_app::date::Date;
use finance_app::expense::Expense;
use finance_app::income::Income;
use finance_app::pages::notes_page::{Notes, NotesCategory};
use finance_app::user::User;

#[test]
fn a_date_keeps_its_parts() {
    let date = Date::new(2024, 5, 17);
    assert_eq!(date.year, 2024);
    assert_eq!(date.month, 5);
    assert_eq!(date.day, 17);
}

#[test]
fn an_income_keeps_what_the_row_held() {
    let income = Income::new(1, 7, "salary".to_string(), 1200, 2, Date::new(2024, 5, 17));
    assert_eq!(income.incomes_id, 1);
    assert_eq!(income.incomes_creator, 7);
    assert_eq!(income.incomes_name, "salary");
    assert_eq!(income.incomes_price, 1200);
    assert_eq!(income.incomes_category, 2);
    assert_eq!(income.incomes_date, Date::new(2024, 5, 17));
}

#[test]
fn an_expense_keeps_what_the_row_held() {
    let expense = Expense::new(3, 7, "rent".to_string(), 800, 1, Date::new(2024, 6, 1));
    assert_eq!(expense.expenses_id, 3);
    assert_eq!(expense.expenses_creator, 7);
    assert_eq!(expense.expenses_name, "rent");
    assert_eq!(expense.expenses_price, 800);
    assert_eq!(expense.expenses_category, 1);
    assert_eq!(expense.expenses_date, Date::new(2024, 6, 1));
}

#[test]
fn a_new_user_has_no_loaded_data() {
    let user = User::new(7, Some("Smith".to_string()), None, "nick".to_string());
    assert_eq!(user.get_id(), 7);
    assert_eq!(user.last_name, Some("Smith".to_string()));
    assert_eq!(user.first_name, None);
    assert_eq!(user.nickname, "nick");
    assert!(user.incomes.is_none());
    assert!(user.expenses.is_none());
}

#[test]
fn loaded_incomes_and_expenses_are_stored() {
    let mut user = User::new(7, None, None, "nick".to_string());
    let incomes = vec![Income::new(1, 7, "salary".to_string(), 1200, 2, Date::new(2024, 5, 17))];
    let expenses = vec![Expense::new(3, 7, "rent".to_string(), 800, 1, Date::new(2024, 6, 1))];
    user.add_incomes_to_user(incomes);
    user.add_expenses_to_user(expenses);
    assert_eq!(user.incomes.as_ref().map(|v| v.len()), Some(1));
    assert_eq!(user.expenses.as_ref().map(|v| v.len()), Some(1));
    assert_eq!(user.incomes.as_ref().unwrap()[0].incomes_name, "salary");
    assert_eq!(user.expenses.as_ref().unwrap()[0].expenses_name, "rent");
}

#[test]
fn a_fresh_notes_page_shows_the_profile_without_a_modal() {
    let notes = Notes::new();
    assert_eq!(notes.current_category, NotesCategory::MyProfile);
    assert!(!notes.show_modal);
    assert_eq!(notes.name_input, "");
    assert_eq!(notes.price_input, "");
    assert_eq!(notes.category_input, "");
    assert_eq!(notes.date_input, "");
    assert_eq!(notes.profile_name_input, "");
    assert_eq!(notes.profile_surname_input, "");
    assert!(notes.name_input_error.is_none());
    assert!(notes.surname_input_error.is_none());
}
