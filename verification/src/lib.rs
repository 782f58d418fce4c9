//! Capability scaffolding for safe wrappers around a native geometry
//! engine's opaque handles: non-owning handle views, a context that carries
//! the last error and notification messages recorded by native calls, and
//! the traits every wrapper type implements to take part in raw access and
//! context interaction.

pub mod context;
pub mod handles;
pub mod traits;
pub mod wrapper;

pub use context::ContextHandle;
pub use context::ContextState;
pub use handles::BorrowedHandle;
pub use handles::BorrowedHandleMut;
pub use handles::ContextId;
pub use traits::AsRaw;
pub use traits::AsRawMut;
pub use traits::ContextHandling;
pub use traits::ContextInteractions;
pub use wrapper::Wrapper;
