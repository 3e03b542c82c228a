use vstd::prelude::*;

verus! {

/// Why an operation was rejected. Every rejection is local to one call:
/// the state is left exactly as it was.
#[derive(Clone, Copy, Debug, PartialEq, Eq, Structural)]
pub enum ChatError {
    /// A proposed display name was empty.
    InvalidName,
    /// A rename was attempted by a caller with no user row.
    UnknownUser,
    /// A message targeted a room id that no room has.
    RoomNotFound,
    /// A message's text was empty.
    EmptyMessage,
    /// A message's text failed the content-appropriateness check.
    InappropriateContent,
    /// A pointer coordinate fell outside the closed interval [0, 100].
    OutOfBounds,
    /// The single rejection a caller sees for an out-of-bounds pointer.
    InvalidPointer,
}

impl ChatError {
    /// The human-readable reason returned to the caller.
    pub fn message(&self) -> (r: &'static str)
        ensures
            r@ == match *self {
                ChatError::InvalidName => "Names must not be empty"@,
                ChatError::UnknownUser => "Cannot set name for unknown user"@,
                ChatError::RoomNotFound => "Room not found"@,
                ChatError::EmptyMessage => "Messages must not be empty"@,
                ChatError::InappropriateContent => "Message is inappropriate"@,
                ChatError::OutOfBounds => "Position is out of bounds"@,
                ChatError::InvalidPointer => "Invalid point"@,
            },
    {
        match *self {
            ChatError::InvalidName => "Names must not be empty",
            ChatError::UnknownUser => "Cannot set name for unknown user",
            ChatError::RoomNotFound => "Room not found",
            ChatError::EmptyMessage => "Messages must not be empty",
            ChatError::InappropriateContent => "Message is inappropriate",
            ChatError::OutOfBounds => "Position is out of bounds",
            ChatError::InvalidPointer => "Invalid point",
        }
    }
}

} // verus!
