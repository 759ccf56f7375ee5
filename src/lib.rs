pub mod client;
pub mod session;
pub mod style;
pub mod symbol;
pub mod text;
