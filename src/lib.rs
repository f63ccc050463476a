pub mod body;
pub mod input;
pub mod laws;
pub mod ratio;
pub mod session;
