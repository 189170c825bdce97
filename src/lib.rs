pub mod data;
pub mod error;
pub mod handle;
pub mod hook;
pub mod imports;
pub mod invocation;
pub mod locator;
pub mod logging;
pub mod runtime;
pub mod sandbox;
pub mod symbols;
pub mod text;
