//! Talking to the profile service: the lookup keys, and the verified path
//! building (percent-encoding included) for its user endpoints. The HTTP
//! calls themselves are made by the program around the library.

pub mod client;
pub mod person_api;
