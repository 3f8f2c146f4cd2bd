//! A client library for a remote proof-of-work challenge protocol: a
//! brute-force solver that searches for a nonce whose digest carries a
//! required prefix, and a mining session that decides, outcome by outcome,
//! how to fetch challenges, submit solutions, and survive failures while
//! keeping its cookies and rotating identifier. All network traffic is
//! performed by the caller; this crate holds the decisions and proves them.

pub mod args;
pub mod cookies;
pub mod json;
pub mod session;
pub mod solver;
pub mod utils;
pub mod wire;

pub use solver::solve;
pub use solver::str_starts_with;
pub use solver::Candidate;
pub use solver::Challenge;

pub use utils::bytes_to_hex;
pub use utils::format_error;
pub use utils::format_println;
pub use utils::generate_hash;
pub use utils::generate_nonce;
pub use utils::now;
