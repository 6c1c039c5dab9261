//! A calculator component: one exported operation, `add`, on 32-bit words,
//! with the shim that adapts it to the component calling convention.
pub mod guest;
pub mod rt;

pub use guest::{_export_add_cabi, Guest, MyType};
pub use rt::{as_i32, AsI32};
