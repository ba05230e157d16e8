//! A bounded asynchronous authorization gate and the handlers it protects.
//!
//! The library holds the decision logic of a small HTTP service: a gate that
//! admits or rejects a request by comparing a bearer credential against the
//! accepted constant under a deadline, and two stateless handlers. All
//! timing, scheduling and transport is the caller's: the authorization gate
//! is a family of pure steps, each one a function from the request-local data
//! it has seen so far to the next action, so that its whole behaviour is
//! stated and proved here.

use vstd::prelude::*;

pub mod gate;
pub mod handlers;

verus! {

/// Status of a successful protected-route response.
pub const STATUS_OK: u16 = 200;

/// Status of a successful resource creation.
pub const STATUS_CREATED: u16 = 201;

/// Status of a request whose body failed to decode.
pub const STATUS_BAD_REQUEST: u16 = 400;

/// Status of a request the authorization gate rejects: missing header, wrong
/// credential and an elapsed deadline all collapse to this one code, so that
/// a caller cannot tell the causes apart.
pub const STATUS_UNAUTHORIZED: u16 = 401;

} // verus!
