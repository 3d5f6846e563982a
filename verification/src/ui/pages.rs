//! Helpers for the pages of the tracker.

pub mod page_helpers;
