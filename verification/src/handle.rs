//! Identifiers of native entities.
//!
//! The native layer names every entity — application, user, lobby, SKU — by
//! an opaque 64-bit identifier. The identifiers are immutable values compared
//! by their raw bits and own nothing; these aliases keep signatures saying
//! which kind of entity a number stands for.

use vstd::prelude::*;

verus! {

/// Identifier of the application the session is created for.
pub type ClientID = i64;

/// Identifier of a user.
pub type UserID = i64;

/// Identifier of a lobby.
pub type LobbyID = i64;

/// Identifier of a store entity such as a SKU or an entitlement.
pub type Snowflake = i64;

} // verus!
