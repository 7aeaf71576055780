//! A minimal connection-oriented request server library.
//!
//! The crate holds the verified core of the server: the protocol
//! vocabulary (method, version and status enumerations with their
//! string and code mappings), the request and response carriers, the
//! request-line parser, the router that maps a parsed request to a
//! file-store operation and a status, the response serializer, and the
//! worker-pool dispatch protocol.  The sockets, threads and the file
//! store itself live outside the library and talk to it in plain
//! values.

pub mod handler;
pub mod method;
pub mod parser;
pub mod pool;
pub mod request;
pub mod response;
pub mod router;
pub mod status;
pub mod strutil;
pub mod text;
pub mod version;
