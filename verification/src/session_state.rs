//! The session of a request, as the workflows see it: the four calls that
//! can be made on it.

use crate::protocol::{Command, CommandView, UserId};
use vstd::prelude::*;

verus! {

/// The key under which the session store keeps the authenticated user.
pub const USER_ID_KEY: &'static str = "user_id";

/// The session of the request at hand. It holds nothing: which session is
/// meant is the driver's to know, and every call on it is a [`Command`].
#[derive(Clone, Copy, Debug, PartialEq, Eq, Structural)]
pub struct TypedSession;

impl TypedSession {
    /// Give the session a new id, keeping its attributes.
    pub fn renew(&self) -> (command: Command)
        ensures
            command@ == CommandView::RenewSession,
    {
        Command::RenewSession
    }

    /// Record the authenticated user in the session.
    pub fn insert_user_id(&self, user_id: UserId) -> (command: Command)
        ensures
            command@ == (CommandView::InsertSessionUser { user_id }),
    {
        Command::InsertSessionUser { user_id }
    }

    /// Read the authenticated user of the session.
    pub fn get_user_id(&self) -> (command: Command)
        ensures
            command@ == CommandView::ReadSessionUser,
    {
        Command::ReadSessionUser
    }

    /// Destroy the session as a whole, so that its id cannot be used again.
    pub fn log_out(self) -> (command: Command)
        ensures
            command@ == CommandView::DestroySession,
    {
        Command::DestroySession
    }
}

} // verus!
