//! Transactional core of a multi-user room/chat/presence service.
//!
//! The shared table store (users, pointers, rooms, messages) is modelled by
//! [`state::ChatState`]; the six operations that mutate it live in [`ops`],
//! each validating its input and committing all of its writes or none.

pub mod errors;
pub mod laws;
pub mod ops;
pub mod state;
pub mod validate;

pub use errors::ChatError;
pub use state::{ChatState, Identity, Message, Pointer, Room, User};
