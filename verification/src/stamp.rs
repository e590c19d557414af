//! Fresh identifiers and the current time.

use crate::types::Timestamp;
use vstd::prelude::*;

verus! {

/// `Uuid::new_v4`: an identifier drawn from the operating system's random
/// generator. Which one comes back is open, so nothing is claimed of it. The
/// call panics where the system cannot supply random bytes.
#[verifier::external_body]
pub(crate) fn new_uuid() -> uuid::Uuid {
    uuid::Uuid::new_v4()
}

/// The text that stands for the identifier `id`.
pub uninterp spec fn uuid_text(id: uuid::Uuid) -> Seq<char>;

/// `Uuid`'s `to_string`: the identifier written out, the same text for the
/// same identifier.
#[verifier::external_body]
pub(crate) fn uuid_to_string(id: &uuid::Uuid) -> (r: String)
    ensures
        r@ == uuid_text(*id),
{
    id.to_string()
}

/// `Utc::now`, taken apart with `DateTime::timestamp` and
/// `DateTime::timestamp_subsec_nanos`: the current time. It depends on the
/// clock, so nothing is claimed of it. The call panics where the system
/// clock stands before the Unix epoch.
#[verifier::external_body]
pub(crate) fn now() -> Timestamp {
    let t = chrono::Utc::now();
    Timestamp { secs: t.timestamp(), nanos: t.timestamp_subsec_nanos() }
}

/// A fresh session identifier: a random identifier written out.
pub(crate) fn new_session_id() -> (r: String)
    ensures
        exists|id: uuid::Uuid| r@ == #[trigger] uuid_text(id),
{
    let id = new_uuid();
    uuid_to_string(&id)
}

} // verus!
