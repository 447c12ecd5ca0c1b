//! Verified core of a WeChat official-account bot that registers employees by
//! mobile number and answers questions about their remaining leave days.

pub mod clock;
pub mod commands;
pub mod dialog_laws;
pub mod models;
pub mod sms;
pub mod text;
pub mod wx_msg;
