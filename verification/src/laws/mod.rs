//! What holds of the library as a whole, said of every input.
//!
//! The laws here speak of what goes in and what comes out: the fields of a request, the members of
//! a line, the words on the wire, the text of a response.
pub mod errors;
pub mod lines;
pub mod numbers;
pub mod places;
pub mod requests;
pub mod runs;
pub mod texts;
pub mod written;
