//! Key handling of an input method for Chinese.

pub mod behaviour;
pub mod codes;
pub mod com;
pub mod dispatch;
pub mod effect;
pub mod key;
pub mod request;
pub mod router;
pub mod rules;
pub mod shared;
pub mod text;
pub mod turns;
