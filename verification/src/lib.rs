//! Search for CREATE2 salts whose deployment address starts with a chosen byte pattern.
//!
//! A salt is the caller's address, a random four-byte segment and a 64-bit nonce. The address
//! that a factory would deploy to under that salt is the last 20 bytes of the Keccak-256
//! digest of an 85-byte message; a salt is reported when that address begins with the pattern.
//!
//! - [`config`] validates the textual configuration.
//! - [`protocol`] lays out the message and applies the match rule.
//! - [`batch`] searches a bounded, reproducible batch of nonces; [`worker`] runs batch after
//!   batch for one worker.
//! - [`miner`] holds the host side of the device search.

pub mod batch;
pub mod config;
pub mod encoding;
pub mod miner;
pub mod protocol;
pub mod text;
pub mod worker;

pub use batch::{run_batch, search_batch};
pub use config::{
    parse_config, parse_fixed_hex, parse_pattern, AppConfig, ConfigError, MinerConfig, RawConfig,
};
pub use encoding::strip_0x;
pub use miner::{mk_kernel_src, MinerAction, MinerEvent, MinerState};
pub use protocol::FoundResult;
pub use worker::{
    init_worker, run_batch_wasm, set_stop, BatchResult, UninitializedWorkerError, WorkerState,
};
