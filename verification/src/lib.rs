//! The decisions behind porthole's window: what each section and dialog shows,
//! what a press sends to the helper, and what each thing that is heard changes.
//!
//! Every section and dialog is a value with a view. Its methods are stated as
//! transitions between views, and the laws beside them are proved of those
//! transitions. Time, what a parser made of a field, and what the helper, the
//! address book or `/proc` answered are arguments.

pub mod alert;
pub mod bus;
pub mod busy;
pub mod devices_dialog;
pub mod listening_section;
pub mod model;
pub mod net;
pub mod open_dialog;
pub mod open_now;
pub mod quiet;
pub mod screenshot;
pub mod status_bar;
pub mod text;
pub mod update_consent;
pub mod window;
