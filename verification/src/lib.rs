//! The decision core of a SOCKS5 relay that rewrites the `User-Agent` header
//! of the HTTP requests passing through it.
//!
//! Nothing here touches a socket. The program around this library reads,
//! writes, connects and waits; what to do with the bytes and the outcomes is
//! decided here, and proved:
//!
//! - [`http`] recognises a request by its first bytes, finds the value of
//!   the `User-Agent` header and replaces it;
//! - [`sniff`] holds a connection's first bytes until they are handed on;
//! - [`session`] leads a connection from its acceptance to its end;
//! - [`relay`] pumps bytes both ways between client and target;
//! - [`udp`] frames and unframes relayed datagrams;
//! - [`cache`] remembers the destinations that do not speak HTTP;
//! - [`gate`] bounds the number of connections served at one time;
//! - [`logfile`] says when the log file is emptied;
//! - [`search`] and [`buffer`] state what is relied on of the `memchr` and
//!   `bytes` crates.

pub mod buffer;
pub mod cache;
pub mod gate;
pub mod http;
pub mod logfile;
pub mod relay;
pub mod search;
pub mod session;
pub mod sniff;
pub mod udp;
