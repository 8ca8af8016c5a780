//! Gateway configuration: schema, defaults and validation.

pub mod schema;
