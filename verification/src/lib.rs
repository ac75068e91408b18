//! A terminal feed reader's core: a windowed listing of posts and the
//! runtime that turns input events and queued actions into state changes.

pub mod action;
pub mod app;
pub mod session;
pub mod ui;
