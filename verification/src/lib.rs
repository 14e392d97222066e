//! Core of a WebSocket reverse proxy that tunnels sessions to dynamically
//! resolved backend pods. The per-connection pipeline is modelled here:
//! liveness short-circuiting, upgrade path validation, pod identifier
//! extraction, backend resolution, target URL construction, and the session
//! and relay state machines that govern one proxied connection. The
//! surrounding process performs the actual socket, handshake and cluster I/O
//! and feeds every observation into these verified decision functions.

pub mod backend;
pub mod path;
pub mod probe;
pub mod relay;
pub mod session;
