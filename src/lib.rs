pub mod card;
pub mod key;
pub mod laws;
pub mod program;
