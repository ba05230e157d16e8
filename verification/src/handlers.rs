//! The two route handlers: the protected greeting and the unauthenticated
//! resource creation.

use vstd::prelude::*;

use crate::gate::CurrentUser;
use crate::STATUS_BAD_REQUEST;
use crate::STATUS_CREATED;

verus! {

/// The identifier every created record carries; records are never stored, so
/// the value is synthesized afresh on each call.
pub const CREATED_USER_ID: u64 = 1337;

/// The body accepted by the creation route.
pub struct CreateUser {
    pub username: String,
}

/// The record the creation route returns.
pub struct User {
    pub id: u64,
    pub username: String,
}

/// The protected handler. The identity it takes witnesses that the
/// authorization gate admitted the request — one is attached before any
/// protected handler runs — and serves observability only: the response does
/// not depend on it.
pub fn root(_current_user: &CurrentUser) -> (body: &'static str)
    ensures
        body@ == "Hello, World!"@,
{
    "Hello, World!"
}

/// The creation handler: pairs the posted username with the synthesized
/// identifier and reports the record as created.
pub fn create_user(payload: CreateUser) -> (response: (u16, User))
    ensures
        response.0 == STATUS_CREATED,
        response.1.id == CREATED_USER_ID,
        response.1.username@ == payload.username@,
{
    (STATUS_CREATED, User { id: CREATED_USER_ID, username: payload.username })
}

/// The creation route as the decoding layer sees it: only a body that decoded
/// reaches [`create_user`]; one that did not yields a client error, and no
/// record — no identifier — is ever synthesized for it.
pub fn users_response(decoded: Option<CreateUser>) -> (response: (u16, Option<User>))
    ensures
        decoded matches Some(payload) ==> (response.1 matches Some(u)
            && response.0 == STATUS_CREATED
            && u.id == CREATED_USER_ID
            && u.username@ == payload.username@),
        decoded is None ==> response.0 == STATUS_BAD_REQUEST && response.1 is None,
{
    match decoded {
        Some(payload) => {
            let (status, user) = create_user(payload);
            (status, Some(user))
        },
        None => (STATUS_BAD_REQUEST, None),
    }
}

} // verus!
