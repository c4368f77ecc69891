//! A minimal single-document text editor, kept free of any terminal or file
//! access: the caller performs each [`session::Command`] and reports back how
//! it went, and every decision in between is made, and proved, here.

pub mod key;
pub mod layout;
pub mod buffer;
pub mod error;
pub mod session;
pub mod laws;
