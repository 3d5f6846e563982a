//! What the pages of the tracker share.

pub mod pages;
