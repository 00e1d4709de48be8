pub mod config;
pub mod decimal;
pub mod handlers;
pub mod middleware;
pub mod shutdown;
pub mod span;
pub mod telemetry;
pub mod text;
