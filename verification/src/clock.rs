//! The one place the library touches the wall clock.

use vstd::prelude::*;

verus! {

/// Relies on `time::OffsetDateTime::now_utc` and `OffsetDateTime::format`
/// with the RFC 2822 well-known description: reads the current instant and
/// renders it as text. The result depends on the moment of the call, so no
/// contract pins it down; callers treat the returned string as opaque.
#[verifier::external_body]
pub(crate) fn now_rfc2822() -> String {
    let now = time::OffsetDateTime::now_utc();
    match now.format(&time::format_description::well_known::Rfc2822) {
        Ok(s) => s,
        Err(_) => String::new(),
    }
}

} // verus!
