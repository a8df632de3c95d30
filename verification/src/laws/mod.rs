//! What the library does, stated over whole runs: from what the guest asks for and what the
//! host answers to what the host is asked for and what the guest gets.

pub mod attrs;
pub mod calls;
pub mod data;
pub mod dirs;
pub mod links;
pub mod lookup;
pub mod nodes;
pub mod numbers;
pub mod records;
pub mod run;
pub mod session;
pub mod still;
pub mod streams;
pub mod tables;
pub mod texts;
pub mod values;
