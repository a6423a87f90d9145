pub mod detect;
pub mod headers;
pub mod signal;
