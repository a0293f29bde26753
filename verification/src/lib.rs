//! A single-block AES-128 encryption engine that records the cipher state
//! after every transformation step, yielding a full execution trace.

pub mod block;
pub mod cipher;
pub mod gf;
pub mod inv_mix;
pub mod key_schedule;
pub mod sbox;
pub mod transforms;
