pub mod battery;
pub mod decimal;
pub mod hardware;
pub mod properties;
pub mod sensors;
pub mod sysfs;
pub mod text;
pub mod traversal;

pub use properties::validate_value;
