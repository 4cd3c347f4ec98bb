//! The bridge between native values and the data model, in both
//! directions, and the errors of a mismatch.

pub mod de;
pub mod index;
pub mod native;
pub mod ser;

pub use native::Native;
