//! Safe protocol layer around a native mesh decompression engine: metadata
//! conversion, buffer sizing, written-length checks and the cache lifecycle.
pub mod config;
pub mod native;
pub mod session;
