//! Hardware drivers: the decisions and data of each, apart from port and memory-mapped I/O.
pub mod audio;
pub mod display;
pub mod input;
pub mod manager;
pub mod proxy;
pub mod storage;
