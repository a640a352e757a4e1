//! Verified core of the runtime-override tool and of the Pangolin runtime
//! helpers it builds.
pub mod cli;
pub mod era;
pub mod runtime;
pub mod scale;

pub use runtime::{
    native_version, pangolin_to_pangoro_account_ownership_digest, wasm_binary_unwrap,
    CustomOnRuntimeUpgrade, TransactionConverter,
};
