//! The verified pieces of the profile query and mutation layer: the inputs a
//! caller may send, the username rule, and the choice of lookup key and
//! display filter for a profile query. The resolvers that run these against
//! the remote profile service live in the program around the library.

pub mod error;
pub mod input;
pub mod root;
