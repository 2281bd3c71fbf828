//! A single-node ledger simulation: wallets exchange signed transactions,
//! every event is sealed into a proof-of-work block with a Merkle
//! commitment, and value flows through a constant-product market maker that
//! trading agents drive.
//!
//! Amounts are whole numbers of the smallest unit, a thousand-millionth of a
//! whole unit of a currency. A price is the number of smallest units of the
//! quote currency that one whole unit of the base currency costs. Fees,
//! shares and thresholds are counted in millionths. Every division rounds
//! down unless its contract says otherwise.
//!
//! Each type has a model, which is what its contracts speak of: a plain
//! value of sequences, sets, maps and integers. What comes from outside the
//! library (hashes, signatures, the calendar, randomness, the clock) enters
//! through a few small functions whose contracts are taken on trust; the
//! hash of a text and the signature of a message are named there and
//! nothing is assumed of their values.

pub mod address;
pub mod agent;
pub mod amm;
pub mod block;
pub mod chain;
pub mod clock;
pub mod encoding;
pub mod error;
pub mod explorer;
pub mod feed;
pub mod hashing;
pub mod market;
pub mod monitor;
pub mod permutation;
mod random;
pub mod signing;
pub mod text;
pub mod transaction;
pub mod wallet;
