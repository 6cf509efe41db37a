//! The health check.

use crate::protocol::StatusCode;
use vstd::prelude::*;

verus! {

/// Says that the service is up: always status 200.
pub fn health_check() -> (code: StatusCode)
    ensures
        code == StatusCode::Success,
{
    StatusCode::Success
}

} // verus!
