//! Core machinery of a desktop client for watching live streams: a command
//! template engine, a process-pipeline planner, the request handling of a
//! local OAuth capture listener, and a live-set poller that detects channels
//! going live.
//!
//! Everything here works on plain values (strings, vectors, booleans).  The
//! surrounding program performs the actual I/O: it listens on the socket,
//! spawns the processes, fetches the stream lists and shows the
//! notifications, all exactly as the contracts in this crate direct.
pub mod capture;
pub mod dispatch;
pub mod launch;
pub mod poller;
pub mod template;
pub mod text;
