//! The decisions of a hook that watches a rhythm game save its players'
//! results and sends the scores on to a scoring service.
//!
//! The hook sits on one function of the host. For every call of it the
//! dispatcher in [`takure`] asks the host, one request at a time, what the
//! call is: a card inquiry makes its card the current one, a save of player
//! data has its payload copied, and every call whatsoever is handed on to
//! the host's own function. A copied payload is decoded into a record of one
//! of three shapes; [`handlers::scores`] turns the record into the one import
//! that is sent, or says why nothing is. [`wire`] gives the import the shape
//! it has on its way out. [`version`] decides whether the hook may run on a
//! host at all.
//!
//! But for reading the clock, nothing here talks to the outside world: the
//! library decides, and its caller carries the decisions out.

pub mod configuration;
pub mod error;
pub mod handlers;
pub mod json;
pub mod sys;
pub mod takure;
pub mod text;
pub mod types;
pub mod version;
pub mod wire;
