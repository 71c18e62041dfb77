//! Scheduling of collation fetches for a validator: which advertised
//! collation to fetch next under a claim queue, and when a para has used up
//! its claims. Also the weight of the unsigned election phase and the
//! transaction pause pallet's proxy and whitelist rules.
pub mod collation;
pub mod laws;
pub mod primitives;
pub mod tx_pause;
pub mod weights;
