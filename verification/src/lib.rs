//! Talking to Apple's on-device foundation model through a helper process.
//!
//! The model is reachable from Swift only, so requests go to a small helper program, `FMBridge`,
//! over its standard input and output. One helper is started for each request; it gets the request
//! as one line of JSON and answers with one JSON object per line.
//!
//! This crate is everything of that exchange but the input and output itself: what a request may
//! hold and what is wrong with one ([`types`], [`validate`]), how it is written for the helper
//! ([`wire`]), what the lines of the helper mean ([`events`]), where the helper is looked for
//! ([`locate`]), and how a request goes from its admission to its end ([`bridge`], [`session`],
//! [`transcript`]). [`laws`] says what holds of all of it. The caller looks at the file system,
//! starts processes, waits and reads, and hands over what came of it.
//!
//! ```text
//! let bridge = Bridge::new(PathBuf::from("/path/to/FMBridge")).max_concurrency(4);
//! let request = Request::new().system("You are terse.").user("Name three seabirds.");
//! let pending = bridge.complete(request, true)?;       // nothing runs yet
//! let admitted = pending.take_slot(outcome)?;          // a slot of the four is held
//! let mut running = admitted.started(outcome)?;        // the helper has the request
//! loop { match running.on_read(read)? { .. } }         // line by line
//! let response = running.finish(reaped)?;              // the response, or why there is none
//! ```
//!
//! Token counts are estimates: the model's own are not accessible.
pub mod bridge;
pub mod double;
pub mod error;
pub mod events;
pub mod json;
pub mod laws;
pub mod locate;
pub mod session;
pub mod text;
pub mod transcript;
pub mod types;
pub mod validate;
pub mod wire;

pub use bridge::{Bridge, DEFAULT_MAX_CONCURRENCY};
pub use double::Double;
pub use error::{Error, Unavailable};
pub use locate::BINARY_ENV_VAR;
pub use types::{
    Completion, Message, Request, Role, Sampling, Schema, SchemaProperty, SchemaType, StreamEvent,
    Usage,
};
