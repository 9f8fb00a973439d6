pub mod card;
pub mod engine;
pub mod format;
