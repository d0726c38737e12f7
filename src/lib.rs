//! A full-screen terminal reader of short lessons: the event model, the
//! controller that folds events into application state, the screen layout,
//! and the decisions of the background input task and of its shutdown.

pub mod event;
pub mod app;
pub mod layout;
pub mod session;
