//! What the bot does with every message it sees.

pub mod count;
