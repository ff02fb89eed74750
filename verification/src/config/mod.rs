pub mod kernel_limits;
pub mod limits;
pub mod loop_settings;
