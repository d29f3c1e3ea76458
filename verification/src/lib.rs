//! The logic of a Telegram bot that uploads files from links.
//!
//! A user sends a link, alone or with `/upload`, and gets the file; links of Terabox
//! are looked up first. Posts of one channel, the input channel, are worked through as
//! batches: each Terabox link in them becomes a file in a second channel, and a report
//! lists the files.
//!
//! The library does no input or output. It decides: an update becomes an action, and an
//! upload or a batch is a state that takes the outcome of one action and names the next.
//!
//! - [`bot`]: the shared state, and the answers to messages and button presses
//! - [`upload`]: one upload, step by step
//! - [`batch`], [`models`]: batches, step by step, and their record
//! - [`links`], [`filename`], [`messages`], [`text`]: what these are made of
//! - [`external`]: the calls into other crates, with what is believed of them
//! - [`laws`]: what holds of all this together

pub mod batch;
pub mod bot;
pub mod external;
pub mod filename;
pub mod laws;
pub mod links;
pub mod messages;
pub mod models;
pub mod text;
pub mod upload;
