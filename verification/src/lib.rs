//! Routing configuration of an API gateway.
//!
//! A configuration document names an authorization endpoint and an ordered
//! list of routing rules. Each rule may constrain the host, the path and one
//! header of a request, and names the backend service and port that matching
//! requests are forwarded to. This crate decodes such a document into a
//! validated [`GatewayConfig`] and answers which rule a request falls under:
//! the first one, in the order of the document, whose constraints all hold.
//!
//! Every function is verified against a contract over the mathematical model
//! of its arguments. Pattern compilation and matching are the `regex` crate's,
//! and the document syntax is the `toml` crate's; what is assumed of them is
//! stated at the few functions that call them.

pub mod document;
pub mod error;
pub mod gateway;
pub mod loader;
pub mod pattern;
pub mod rule;
pub mod source;
pub mod theorems;

pub use document::{Field, RawDocument, RawHeader, RawRule};
pub use error::{ConfigError, ErrorModel};
pub use gateway::GatewayConfig;
pub use loader::load_config;
pub use pattern::PatternField;
pub use rule::{Header, Request, ServiceConfig};
pub use source::parse_document;
