pub mod blocker;
pub mod cleaner;
pub mod display;
pub mod signal;
pub mod storage;
pub mod tweaker;
