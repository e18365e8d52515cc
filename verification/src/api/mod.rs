//! Decoders for the Hook API's answers, one module per group of calls:
//! each function takes the raw `i64` a call returned and the buffer it
//! wrote, and returns the typed result.

pub mod etxn;
pub mod float;
pub mod hook_ctx;
pub mod keylet;
pub mod otxn;
pub mod slot;
pub mod state;
pub mod sto;
pub mod util;
