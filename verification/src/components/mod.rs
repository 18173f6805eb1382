//! The components: what each one renders, as plain values for the host to
//! draw.

pub mod error;
pub mod input;
