//! A small utility library: a person record with greetings, a maximum
//! scan over ordered items, a length comparison of two texts and a
//! threshold check that can fail.

pub mod outcome;
pub mod text;
pub mod search;
pub mod person;

pub use outcome::check_threshold;
pub use outcome::risky_operation;
pub use outcome::ErrorKind;
pub use person::Greeter;
pub use person::Person;
pub use person::Status;
pub use search::find_max;
pub use text::longest;
