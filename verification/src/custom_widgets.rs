//! The custom widget layer: each widget's interaction logic is a pure state
//! machine here; the toolkit-facing rendering lives outside the library.
pub mod exit_button_widget;
pub mod hyperlink_widget;
pub mod modal_window;
