//! A multi-mode HTTP proxy core: the per-request decision tree of a server
//! that acts as forward proxy (CONNECT tunnels and absolute-form requests),
//! reverse proxy, and static-file host.
//!
//! This crate holds the verified logic: host resolution, request rewriting,
//! the authentication gate, CIDR gating of static serving, reverse-proxy
//! location matching, the dispatcher, and the CONNECT handshake planning.
//! The surrounding runtime (sockets, TLS, the HTTP codec, the actual byte
//! splicing) lives outside and consumes the decisions made here.

pub mod auth;
pub mod config;
pub mod dispatch;
pub mod errors;
pub mod host;
pub mod labels;
pub mod location;
pub mod message;
pub mod rewrite;
pub mod serving;
pub mod text;
pub mod tunnel;
