//! What holds of the library as a whole: statements that relate several of its
//! functions, or that hold after any number of calls.

pub mod batches;
pub mod courses;
pub mod links;
pub mod messages;
pub mod names;
pub mod texts;
pub mod updates;
pub mod uploads;
