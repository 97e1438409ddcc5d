//! A provably fair roulette: commit-reveal rounds settled against a liquidity
//! pool, gated by a Groth16 proof over BN254.
//!
//! - [`settlement`]: who wins, and what a settled bet moves.
//! - [`roulette`]: the round engine, from commitment to reveal or timeout.
//! - [`pool`]: the liquidity pool and its shares.
//! - [`ratio`]: a product over a divisor, rounded down, without overflow.
//! - [`hub`]: the record of sessions.
//! - [`verification`] and [`zk`]: the proof verifier and the commitment hash.
//! - [`field`]: big-endian numbers and the two fields of the curve.
//! - [`bn254`]: the curve operations of the Soroban host.
//!
//! The components keep state and decide; they move no funds and call nobody.
//! What an operation moves and whom it tells, it returns.

pub mod bn254;
pub mod constants;
pub mod field;
pub mod hub;
pub mod pool;
pub mod ratio;
pub mod roulette;
pub mod settlement;
pub mod types;
pub mod verification;
pub mod zk;
