//! A registry of personas: for each account, one content identifier that
//! points at a document kept elsewhere.
//!
//! An account writes its own record and nobody else's, a later write takes
//! the place of an earlier one, and every accepted write has an event for
//! those who index the registry from outside. [`AgentRegistry`] keeps the
//! records; [`check_write`] is the rule alone, for a host that keeps them
//! itself. The module [`laws`] holds what is proved of every registry.

pub mod account;
pub mod cid;
pub mod event;
pub mod json;
pub mod laws;
pub mod registry;

pub use account::AccountId;
pub use cid::{is_valid_cid, CID};
pub use event::{frame_log_line, PersonaSetEvent};
pub use registry::{check_write, AgentRegistry, RegistryError};
