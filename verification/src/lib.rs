pub mod actor;
pub mod call;
pub mod client;
pub mod error;
pub mod json;
pub mod jsonrpc;
pub mod options;
pub mod params;
pub mod pending;
pub mod text;
pub mod ws;

pub use error::Error;
pub use ws::ConnectionMeta;
