pub mod probe;
pub mod streams;
pub mod lookup;
pub mod serve;
pub mod session;
pub mod dirs;
pub mod nodes;
pub mod links;
pub mod data;
pub mod attrs;
pub mod xattrs;
pub mod calls;
