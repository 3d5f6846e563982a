//! An issue tracker's document store: epics that own stories, kept as one
//! document, with each operation proved against a mathematical model of the
//! document.

pub mod db;
pub mod document;
pub mod lemmas;
pub mod models;
pub mod ui;
