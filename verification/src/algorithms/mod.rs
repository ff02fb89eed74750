pub mod helpers;
pub mod poll_math;
pub mod tolerance;
