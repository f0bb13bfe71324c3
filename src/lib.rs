//! Request routing and page composition for a small server directory site.
//!
//! The library decides which page a request asks for, picks the selected
//! category out of a freshly fetched list, renders the listing and detail
//! pages as HTML, and confines static asset paths to their asset root.
//! Fetching categories from the store and reading asset files are left to
//! the caller, which hands the outcome back as plain values.

pub mod model;
pub mod html;
pub mod routing;
pub mod assets;
pub mod pages;
