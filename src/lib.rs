//! A client driver for the CQL native binary protocol: the frame codec, the
//! request parameter model, and the life cycle of pooled connections. The
//! transport itself (sockets, TLS, the pool's threads) is driven by the caller,
//! which hands these modules plain bytes and events.
use vstd::prelude::*;

pub mod authenticators;
pub mod bytes;
pub mod consistency;
pub mod error;
pub mod frame;
pub mod query;
pub mod ssl_connection_pool;
pub mod types;

verus! {

} // verus!
