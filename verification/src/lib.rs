//! Data-encoding core for Tezos: the variable-length codec for natural
//! numbers, the consumable byte cursor, the Micheline expression tree and its
//! schema-driven mapping to typed Michelson nodes, and the request
//! descriptions of a few node RPC endpoints.

pub mod bigint;
pub mod consumable_list;
pub mod error;
pub mod integer;
pub mod micheline;
pub mod michelson;
pub mod natural;
pub mod operation;
pub mod registry;
pub mod round_trip;
pub mod rpc;
