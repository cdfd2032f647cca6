pub mod client;
pub mod cosmos;
pub mod error;
pub mod osmosis;
pub mod rpc;
pub mod signer;
pub mod tx;
