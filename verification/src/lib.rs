//! A persisted 32-bit counter driven by two commands, with every function
//! verified against a model of the bytes it reads and writes.

pub mod command;
pub mod error;
pub mod handler;
pub mod mutator;
pub mod record;
pub mod wire;

pub use command::{decode, Command};
pub use error::{ContractError, DecodeError, MutateError};
pub use handler::counter_contract;
pub use mutator::{apply, transform};
pub use record::{decode_record, encode_record, CounterRecord};
