//! A thread-safe handle with shared ownership.
//!
//! An [`Ark`] owns a value together with its clones. The value is freed when
//! the last of them is dropped, and a handle that is alone may borrow the
//! value mutably.

pub mod handle;
pub mod protocol;
mod sync;
pub mod vault;

pub use handle::Ark;
pub use vault::ArkVault;
