//! Safe, verified core of a binding layer over a closed-source game-services
//! SDK that is reached through a C ABI of manager function pointers.
//!
//! The native library itself performs lobby creation, matchmaking, achievement
//! tracking and networking; this crate holds the process-side mechanisms that
//! marshal data to and from that boundary, each with a proved contract:
//!
//! - [`error`]: mapping of native status codes to a structured error type;
//! - [`charbuf`]: the adapter between growable byte text and the fixed-size,
//!   NUL-terminated character buffers of the C ABI;
//! - [`collection`]: the cursor over native "count" + "get at index" accessor
//!   pairs, with forward and backward iteration and fusing;
//! - [`callbacks`]: the registry that keeps caller-supplied callbacks alive
//!   until the native layer completes them, keyed by generated tokens and
//!   consumed at most once;
//! - [`lobby_transaction`]: the builder that batches lobby field mutations and
//!   replays them, in a defined order, as a sequence of native setter calls;
//! - [`event`]: the queues into which asynchronous native events are delivered
//!   and from which callers drain them;
//! - [`discord`]: the facade that owns the registry and the event queues,
//!   assembles the session's creation parameters, and hands the driver a
//!   bound cursor for each native list it walks.
//!
//! The raw foreign calls themselves live outside this crate: every function
//! here computes from plain values, and a thin unverified driver performs the
//! calls that the types of this crate describe.

pub mod callbacks;
pub mod charbuf;
pub mod collection;
pub mod discord;
pub mod error;
pub mod event;
pub mod handle;
pub mod lobby_transaction;

pub use discord::Discord;
pub use error::Error;
pub use lobby_transaction::LobbyTransaction;
