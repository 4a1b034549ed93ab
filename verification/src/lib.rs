//! A mutual-exclusion cell for single-core, bare-metal programs.
//!
//! Exclusivity comes from a critical section alone: a provider runs the
//! caller's closure while nothing else on the core can enter another critical
//! section. The provider is either one that the application registered or the
//! default that the registry was made with.

pub mod context;
pub mod laws;
pub mod mutex;
pub mod provider;

pub use context::CallContext;
pub use mutex::Mutex;
pub use provider::{
    set_the_critical_section, the_critical_section, CriticalSection, Direct, Registry, Route,
};
