pub mod error;
pub mod json;
pub mod agent;
pub mod pipeline;
