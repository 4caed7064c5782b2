//! Decision logic of an election-solution miner: storage addressing, the
//! guards read against a block, the submission strategy, and the state
//! machines that drive one submission from a new head to finality.

pub mod chain_state;
pub mod duplicate_guard;
pub mod era;
pub mod error;
pub mod monitor;
pub mod pipeline;
pub mod pipeline_laws;
pub mod primitives;
pub mod score;
pub mod storage_key;
pub mod watcher;
