pub mod codec;
pub mod errors;
pub mod instructions;
pub mod keys;
