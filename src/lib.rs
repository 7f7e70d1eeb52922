//! Containers that keep a value inside their own storage, sized by a byte
//! capacity chosen with the type, and a hybrid that falls back to the heap
//! when the value's type is larger than that capacity.

mod capacity;
mod dyn_fist;
mod fist;

pub use capacity::fits;
pub use dyn_fist::DynFist;
pub use fist::Fist;
