//! A safe envelope abstraction for message buffers exchanged with a
//! messaging transport.
//!
//! The central type is [`msg::Msg`]: a value that owns one message buffer
//! and exposes read/write byte access, text interpretation, and two
//! optional scalar properties — a numeric routing identifier
//! ([`msg::RoutingId`]) and a short group name ([`group::Group`]).
//! Conversion adapters build an envelope from borrowed bytes (by copying)
//! or from owned buffers (by adopting the allocation).

use vstd::prelude::*;

pub mod error;
pub mod group;
pub mod msg;

verus! {

pub use crate::error::Error;
pub use crate::group::Group;
pub use crate::msg::Msg;
pub use crate::msg::RoutingId;

} // verus!
