//! What a user of the library needs in scope.

pub use crate::needs_init::{NeedsInit, NeedsPinnedInit};
pub use crate::private::BeginInit;
pub use crate::ptr::{CountedOwner, OwnedUniquePtr, Pinned, UniqueOwner};
pub use crate::static_uninit::StaticUninit;
pub use crate::transmute::TransmuteInto;
pub use crate::{PinnedInit, SafePinnedInit};
