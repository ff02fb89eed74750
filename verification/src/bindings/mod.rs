pub mod cstr;
pub mod ffi;
