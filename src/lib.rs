//! Tenant prefix cache and reaction-role engine of a chat bot, with the
//! small parsers and decisions that surround them.

pub mod binding;
pub mod gateway;
pub mod prefix;
pub mod reaction;
pub mod registration;
pub mod release;
pub mod settings;
pub mod text;
