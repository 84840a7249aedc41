//! The event store: an append-only, in-memory log of beeps.
//!
//! The log is the only shared mutable state of the service. Exclusive access
//! is what `&mut self` grants; the process wraps one `EventLog` in a mutex
//! and every handler borrows it under that lock, so append and snapshot run
//! one at a time, exactly as these contracts describe a single step.

use vstd::prelude::*;

verus! {

/// A single stored notice: user-supplied text plus the creation timestamp
/// that the store stamped when the entry was appended.
pub struct Beep {
    pub text: String,
    pub timestamp: String,
}

/// The mathematical content of a `Beep`: both strings as character sequences.
pub struct BeepView {
    pub text: Seq<char>,
    pub timestamp: Seq<char>,
}

impl View for Beep {
    type V = BeepView;

    open spec fn view(&self) -> BeepView {
        BeepView { text: self.text@, timestamp: self.timestamp@ }
    }
}

impl Clone for Beep {
    fn clone(&self) -> (res: Self)
        ensures
            res@ == self@,
    {
        Beep { text: self.text.clone(), timestamp: self.timestamp.clone() }
    }
}

/// The contents of a sequence of beeps, entry by entry, in the same order.
pub open spec fn views_of(s: Seq<Beep>) -> Seq<BeepView> {
    s.map_values(|b: Beep| b@)
}

/// One append step, as `EventLog::append` guarantees it: the log grows by
/// exactly one entry, every earlier entry keeps its place, and the new last
/// entry carries exactly the appended text. The timestamp of the new entry
/// is whatever the clock rendered, so the step relation leaves it open.
pub open spec fn appended_one(pre: Seq<BeepView>, post: Seq<BeepView>, text: Seq<char>) -> bool {
    &&& post.len() == pre.len() + 1
    &&& forall|i: int| 0 <= i < pre.len() ==> post[i] == pre[i]
    &&& post.last().text == text
}

/// The append-only event log. Its view is the sequence of beep contents in
/// append order, oldest first.
pub struct EventLog {
    beeps: Vec<Beep>,
}

impl View for EventLog {
    type V = Seq<BeepView>;

    closed spec fn view(&self) -> Seq<BeepView> {
        views_of(self.beeps@)
    }
}

impl EventLog {
    /// The log starts empty at process start.
    pub fn new() -> (log: Self)
        ensures
            log@ == Seq::<BeepView>::empty(),
    {
        EventLog { beeps: Vec::new() }
    }

    /// Appends one beep at the end of the log, stamped with the current
    /// time. Every earlier entry stays untouched at its position; the new
    /// entry carries exactly the given text. The timestamp is whatever the
    /// clock rendered at this moment, so nothing more is stated of it.
    pub fn append(&mut self, text: String)
        ensures
            appended_one(old(self)@, final(self)@, text@),
    {
        let timestamp = crate::clock::now_rfc2822();
        self.beeps.push(Beep { text, timestamp });
    }

    /// Returns an independent copy of the whole log, in append order. The
    /// copy is owned by the caller: no later append can reach it.
    pub fn snapshot(&self) -> (snap: Vec<Beep>)
        ensures
            views_of(snap@) == self@,
    {
        let mut snap: Vec<Beep> = Vec::new();
        let n = self.beeps.len();
        for i in 0..n
            invariant
                n == self.beeps.len(),
                snap.len() == i,
                forall|j: int| 0 <= j < i ==> snap@[j]@ == self.beeps@[j]@,
        {
            snap.push(self.beeps[i].clone());
        }
        proof {
            assert(views_of(snap@) =~= self@);
        }
        snap
    }

    /// The number of entries currently in the log.
    pub fn len(&self) -> (n: usize)
        ensures
            n == self@.len(),
    {
        self.beeps.len()
    }
}

} // verus!
