//! Verified core of a toolkit for writing Xahau Hooks: the error model, the
//! byte codecs, the serialized-object writer, and the decoders that turn the
//! Hook API's raw answers into typed values.

pub mod codes;
pub mod error;
pub mod reply;
pub mod bytes;
pub mod types;
pub mod sfield;
pub mod codec;
pub mod sto_writer;
pub mod buf_eq;
pub mod convert;
pub mod interface_name;
pub mod si;
pub mod slot_obj;
pub mod sig;
pub mod state;
pub mod api;
pub mod decl;
pub mod exit;
pub mod remit;
pub mod trust_line;
pub mod testenv_bridge;
