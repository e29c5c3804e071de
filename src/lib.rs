//! Runtime core of a client/server game engine: the loop scheduler and its
//! shutdown latch, the server's tick pipeline (network poll, then scripting
//! engine), the classification of datagram events, and path helpers. Each
//! function carries a contract proved by Verus; sockets, signals, sleeping and
//! the file system are left to the program around the library.

pub mod connection;
pub mod key_event;
pub mod paths;
pub mod scheduler;
pub mod script_engine;
pub mod server;
