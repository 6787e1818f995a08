//! The HTTP layer of a collaborative workspace server, as verified decisions.

pub mod answer;
pub mod authz;
pub mod consent;
pub mod cookie;
pub mod digest;
pub mod encoding;
pub mod error;
pub mod guard;
pub mod header;
pub mod ids;
pub mod json;
pub mod json_input;
pub mod number;
pub mod policy;
pub mod problem;
pub mod query;
pub mod rate_limit;
pub mod routes;
pub mod store;
pub mod text;
pub mod time;
