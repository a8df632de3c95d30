pub mod config;
pub mod dir;
pub mod errno;
pub mod fs;
pub mod host;
pub mod inode;
pub mod linux;
pub mod nt;
pub mod number;
pub mod operation;
pub mod laws;
pub mod ops;
pub mod override_stat;
pub mod path;
pub mod stat;
pub mod text;
pub mod time;
pub mod win;
pub mod xattr;
