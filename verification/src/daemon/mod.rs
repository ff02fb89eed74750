pub mod runtime;
pub mod traits;
pub mod types;
