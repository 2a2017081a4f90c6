pub mod dispatch;
pub mod envelope;
pub mod hsm;
mod types;

pub use dispatch::Dispatcher;
pub use types::{Bytes, Signature};
