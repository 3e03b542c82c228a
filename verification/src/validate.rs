use crate::errors::ChatError;
use vstd::prelude::*;

verus! {

/// Whether the content-appropriateness classifier flags a text. The
/// classifier's verdict is a fixed function of the characters alone; this
/// core treats it as an opaque predicate and defines none of its internals.
pub uninterp spec fn is_inappropriate_of(text: Seq<char>) -> bool;

/// Relies on rustrict's `CensorStr::is_inappropriate`: a profanity/abuse
/// classifier over its built-in word lists. This crate never alters those
/// lists, so the verdict depends only on the text it is given.
#[verifier::external_body]
fn text_is_inappropriate(text: &str) -> (r: bool)
    ensures
        r == is_inappropriate_of(text@),
{
    rustrict::CensorStr::is_inappropriate(text)
}

/// Takes a name and checks if it's acceptable as a user's name:
/// any non-empty text passes, unchanged.
pub fn validate_name(name: String) -> (r: Result<String, ChatError>)
    ensures
        name@.len() > 0 ==> r == Ok::<String, ChatError>(name),
        name@.len() == 0 ==> r == Err::<String, ChatError>(ChatError::InvalidName),
{
    if name.as_str().is_empty() {
        Err(ChatError::InvalidName)
    } else {
        Ok(name)
    }
}

/// Takes a message's text and checks if it's acceptable to send: it must be
/// non-empty and pass the content-appropriateness check, and comes back
/// unchanged.
pub fn validate_message(text: String) -> (r: Result<String, ChatError>)
    ensures
        text@.len() == 0 ==> r == Err::<String, ChatError>(ChatError::EmptyMessage),
        text@.len() > 0 && is_inappropriate_of(text@) ==> r == Err::<String, ChatError>(
            ChatError::InappropriateContent,
        ),
        text@.len() > 0 && !is_inappropriate_of(text@) ==> r == Ok::<String, ChatError>(text),
{
    if text.as_str().is_empty() {
        Err(ChatError::EmptyMessage)
    } else if text_is_inappropriate(text.as_str()) {
        Err(ChatError::InappropriateContent)
    } else {
        Ok(text)
    }
}

/// Checks that both coordinates lie in [0, 100]; in-bounds coordinates come
/// back unchanged.
pub fn validate_pointer(x_position: i64, y_position: i64) -> (r: Result<(i64, i64), ChatError>)
    ensures
        crate::state::coords_in_bounds(x_position, y_position) ==> r == Ok::<
            (i64, i64),
            ChatError,
        >((x_position, y_position)),
        !crate::state::coords_in_bounds(x_position, y_position) ==> r == Err::<
            (i64, i64),
            ChatError,
        >(ChatError::OutOfBounds),
{
    if x_position < 0 || x_position > 100 || y_position < 0 || y_position > 100 {
        return Err(ChatError::OutOfBounds);
    }
    Ok((x_position, y_position))
}

} // verus!
