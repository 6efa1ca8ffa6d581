//! Typed access to the host operations of a sandboxed smart-contract runtime.
pub mod codec;
pub mod dry_run;
pub mod ext;
pub mod host;

pub use codec::{decode_u256, encode_u256, Address, H256};
pub use ext::{
    address, balance, block_hash, block_number, call, call_code, coinbase, create, create2,
    creation_result, difficulty, gas_left, gas_limit, host_signed, host_unsigned, input,
    input_of_length, log, origin, ret, sender, static_call, status_result, suicide, timestamp,
    topic_bytes, value, zeroed_buffer, Error,
};
pub use dry_run::DryRunHost;
pub use host::{Externalities, HostRequest};
pub use uint::U256;
