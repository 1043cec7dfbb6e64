pub mod parse;
pub mod client;
