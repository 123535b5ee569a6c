//! Codec implementations.

pub mod error;
pub mod ascii;
pub mod singlebyte;
pub mod utf_8;
pub mod utf_16;
pub mod korean;
pub mod japanese;
pub mod simpchinese;
pub mod tradchinese;
pub mod whatwg;
