//! Core logic of a small personal-finance desktop application: the widget
//! state machines (an exit button, a hyperlink-style category selector and a
//! modal overlay), the login/registration state machine, the query-error
//! taxonomy and the plain data records they exchange.
pub mod application;
pub mod custom_widgets;
pub mod date;
pub mod error;
pub mod expense;
pub mod income;
pub mod pages;
pub mod user;
