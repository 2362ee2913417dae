//! Request handling for a kroki / mermaid.ink-compatible SVG rendering
//! service: decoding of the `/svg/{encoded}` path segment, the API-token
//! gate, theme selection, the server's layer plan derived from its
//! configuration, and the replies that each outcome produces.

pub mod auth;
pub mod config;
pub mod decode;
pub mod render;
pub mod reply;
pub mod text;

pub use auth::constant_time_eq;
pub use config::ServerConfig;
pub use decode::{decode_request, DecodeError, DecodedRequest};
pub use render::{pick_theme, RenderError};
