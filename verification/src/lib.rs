//! Bridge between a desktop chat client and the background engine process
//! that owns its sockets.
//!
//! The engine is an external program, launched once per task: to listen on a
//! port, to connect to a peer, to send one message. This library holds what
//! has to be decided around those launches and leaves the launching, the
//! reading and the clock to its caller:
//!
//! - [`registry`]: which connection identifiers are on record and usable;
//! - [`framing`]: how a line of the listening engine's output is decoded;
//! - [`event`] and [`event_bus`]: what the user interface is told, through a
//!   bounded queue that drops the oldest entry rather than wait;
//! - [`engine`]: how a launch is described and what it reports back;
//! - [`listener`], [`dispatcher`], [`initiator`]: the rules for listening,
//!   sending and connecting;
//! - [`bridge`]: all of it behind one value;
//! - [`decimal`] and [`text`]: numerals, whitespace and substring search.

pub mod bridge;
pub mod decimal;
pub mod dispatcher;
pub mod engine;
pub mod error;
pub mod event;
pub mod event_bus;
pub mod framing;
pub mod initiator;
pub mod listener;
pub mod registry;
pub mod text;
