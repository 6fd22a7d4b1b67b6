//! A pooled-stake lottery settled by external verifiable randomness.
//!
//! Participants pay a fixed entry fee into a pool while a round is open. The
//! owner locks the round and asks an external randomness provider for a random
//! word; the provider later calls back with that word, and the contract picks a
//! winner deterministically (`word mod participant_count`), pays out the pool,
//! and reopens the round.
//!
//! The library holds the verified decision logic: the round state machine, the
//! fee and authorization checks, winner selection, and the request ledger. The
//! host environment (message context, storage, external contract calls, the
//! native-value transfer) drives these functions from outside; every entry
//! point takes the caller and any attached value as explicit arguments and
//! returns the action the host must perform.

pub mod account;
pub mod consumer;
pub mod lottery;
pub mod u256;
pub mod vrf_args;
