//! Streaming decoder for the attestation blob that a hardware security module
//! emits for a key it holds.
//!
//! The blob is delivered to a [`Machine`] in chunks of any size. The machine
//! reads the size fields, skips to the attribute region, decodes one or two
//! lists of attributes and gathers the signature that ends the blob; what it
//! decodes is collected, in order, in a [`writer::Writer`].

pub mod function;
pub mod layout;
pub mod machine;
pub mod state;
pub mod state_transitions;
pub mod text;
pub mod theorems;
pub mod tlv_mapping;
pub mod writer;

pub use function::FuncResult;
pub use machine::Machine;
pub use state::{KeyMode, Mode, State};
