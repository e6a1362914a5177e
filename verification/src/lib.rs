//! The logic of a small estate server: a notes API for signed-in users and a
//! bridge that turns the auth service's `user.signed_up` event into a welcome
//! notification. The library decides every answer from plain values; the
//! server around it does the HTTP, database and network work.
use vstd::prelude::*;

pub mod calls;
pub mod json;
pub mod laws;
pub mod note_id;
pub mod notes;
pub mod signup;
pub mod site;
pub mod text;

verus! {
} // verus!
