pub mod args;
pub mod codec;
pub mod error;
pub mod program;
pub mod risk;
pub mod tracker;
