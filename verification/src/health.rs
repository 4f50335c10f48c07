//! The health endpoint's answer.

use vstd::prelude::*;

verus! {

/// The answer to a health check: 200 and `OK` while the database answers,
/// 503 and a short reason when it does not.
pub fn health_status(database_reachable: bool) -> (r: (u16, &'static str))
    ensures
        database_reachable ==> r.0 == 200 && r.1@ == "OK"@,
        !database_reachable ==> r.0 == 503 && r.1@ == "Database connection failed"@,
{
    if database_reachable {
        (200, "OK")
    } else {
        (503, "Database connection failed")
    }
}

} // verus!
