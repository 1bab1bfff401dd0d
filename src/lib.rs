//! A ledger for a recycling rewards economy: players earn credits and block
//! tokens for proven waste collection, fund shared project pools, and turn
//! blocks into bricks at a fixed rate. Every record lives at an address that is
//! derived from stable seeds, and every mutation validates before it commits.

pub mod address;
pub mod config;
pub mod error;
pub mod laws;
pub mod ledger;
pub mod material;
pub mod player;
pub mod pool;
pub mod receipt;
pub mod store;
pub mod text;

pub use address::{resolve, Address, PROGRAM_ID};
pub use config::{BlocksMinted, BrickConverted, GlobalConfig, BLOCKS_PER_BRICK};
pub use error::ErrorCode;
pub use ledger::Ledger;
pub use material::MaterialType;
pub use player::PlayerProfile;
pub use pool::ProjectPool;
pub use receipt::ProofOfCollectionReceipt;
pub use store::RecordStore;
