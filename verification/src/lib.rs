//! A permissioned, append-only ledger: hash-linked blocks of signed
//! transactions produced under a proof-of-authority rotation of registered
//! validators.

pub mod block;
pub mod blockchain;
pub mod clock;
pub mod encode;
pub mod hashing;
pub mod merkle;
pub mod network;
pub mod transaction;
pub mod validator;

pub use block::Block;
pub use blockchain::Blockchain;
pub use blockchain::LedgerError;
pub use encode::u64_to_dec;
pub use hashing::sha256_hex;
pub use network::ConsensusState;
pub use network::DistributedLedger;
pub use network::NetworkPeer;
pub use transaction::Transaction;
pub use validator::Role;
pub use validator::Validator;
