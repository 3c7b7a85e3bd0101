pub mod json;
pub mod protocol;
pub mod types;
pub mod tools;
pub mod cluster;
pub mod mcp;
