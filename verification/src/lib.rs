//! Sammy: the verified core of an encryption-first, local-first personal
//! companion.

pub mod backup;
pub mod chat;
pub mod citations;
pub mod conversation;
pub mod corpus;
pub mod crypto;
pub mod db;
pub mod error;
pub mod external_pkc;
pub mod grounding;
pub mod ids;
pub mod identity;
pub mod knowledge;
pub mod lock;
pub mod memory;
pub mod providers;
pub mod radix;
pub mod permissions;
pub mod retrieval;
pub mod settings;
pub mod sources;
pub mod text;
mod time;
pub mod tools;
pub mod vault;
pub mod views;
