pub mod compression;
pub mod noop;
