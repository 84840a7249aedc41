//! The cores of the two request handlers: credential-gated append and the
//! newest-first listing. The HTTP layer around them extracts the bearer
//! credential and the payload, hands both in as plain strings, and maps the
//! returned status onto the wire.

use crate::store::{Beep, EventLog};
use crate::store::{appended_one, views_of};
use vstd::prelude::*;

verus! {

/// Outcome of the create-beep endpoint, named after the statuses the service
/// answers with. A credential mismatch deliberately answers "not found", not
/// "forbidden", so that unauthorized callers learn nothing of the endpoint.
#[derive(Clone, Copy, Debug, PartialEq, Eq, Structural)]
pub enum Status {
    Created,
    NotFound,
}

/// Create-beep handler core. Compares the supplied credential byte for byte
/// against the configured secret: on an exact match the beep is appended and
/// `Created` is returned; on any mismatch the log is left untouched and
/// `NotFound` is returned. Never both, never neither.
pub fn post_beep(log: &mut EventLog, secret: &String, token: &String, text: String) -> (status:
    Status)
    ensures
        status == (if token@ == secret@ {
            Status::Created
        } else {
            Status::NotFound
        }),
        token@ == secret@ ==> appended_one(old(log)@, final(log)@, text@),
        token@ != secret@ ==> final(log)@ == old(log)@,
{
    if !(*token == *secret) {
        return Status::NotFound;
    }
    log.append(text);
    Status::Created
}

/// Home-page handler core. Takes a snapshot of the log and returns it in
/// display order: newest first, the exact reverse of append order.
pub fn home_page(log: &EventLog) -> (page: Vec<Beep>)
    ensures
        views_of(page@) == log@.reverse(),
{
    let mut snap = log.snapshot();
    let ghost all = snap@;
    let mut page: Vec<Beep> = Vec::new();
    while snap.len() > 0
        invariant
            snap@.len() + page@.len() == all.len(),
            snap@ == all.subrange(0, all.len() - page@.len()),
            forall|j: int| 0 <= j < page@.len() ==> page@[j]@ == all[all.len() - 1 - j]@,
        decreases snap.len(),
    {
        let b = snap.pop().unwrap();
        page.push(b);
    }
    proof {
        assert(views_of(page@) =~= views_of(all).reverse());
    }
    page
}

} // verus!
