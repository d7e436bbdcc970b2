//! Turns the live membership of a Tailscale mesh network into dynamic
//! routing configuration for Traefik: peers are filtered by policy,
//! logical services are inferred from peer tags, and router/service
//! records are synthesized for the HTTP, TCP and UDP protocol families.

pub mod assoc;
pub mod client;
pub mod config;
pub mod platform;
pub mod provider;
pub mod refresh;
pub mod status;
pub mod strutil;
pub mod traefik;
