//! The bridge process: the command protocol, the speedpatch handshake, the
//! injection bookkeeping and the decisions around hook-based injection.
pub mod threads;
pub mod handshake;
pub mod init_codes;
pub mod registry;
pub mod atomics;
pub mod ops;
pub mod inject;
pub mod protocol;
pub mod modules;
pub mod logs;
pub mod target;
pub mod hook;
