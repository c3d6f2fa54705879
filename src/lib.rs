//! A small tool server core: tools declare their input shape, the shape is
//! turned into an advertised schema, and requests are matched, validated and
//! answered through a frozen registry.

pub mod args;
pub mod dispatch;
pub mod json;
pub mod lifecycle;
pub mod registry;
pub mod report;
pub mod response;
pub mod schema;
pub mod server;
