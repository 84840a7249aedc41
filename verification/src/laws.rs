//! The store's guarantees, stated and proved once over the log's model.
//!
//! `appended_one` (in `store`) is exactly what one `EventLog::append` — or a
//! successful `post_beep` — ensures of the log, so everything proved of runs
//! of that relation holds of every run of appends the service performs, in
//! whatever interleaving the lock serialized them.

use crate::store::BeepView;
use crate::store::appended_one;
use vstd::prelude::*;

verus! {

/// Law (append visibility): after any run of appends — `states` being the
/// log at each lock release, each step an `appended_one` — the final log
/// holds exactly one entry per append; the entries of the run stand behind
/// the initial ones in lock-acquisition order, each carrying its text; and
/// the initial entries are untouched. A snapshot taken after the run returns
/// exactly `states.last()`.
pub proof fn lemma_append_run_visibility(states: Seq<Seq<BeepView>>, texts: Seq<Seq<char>>)
    requires
        states.len() == texts.len() + 1,
        forall|k: int| 0 <= k < texts.len() ==> appended_one(states[k], states[k + 1], texts[k]),
    ensures
        states.last().len() == states[0].len() + texts.len(),
        forall|k: int|
            0 <= k < texts.len() ==> states.last()[states[0].len() + k].text == texts[k],
        forall|i: int| 0 <= i < states[0].len() ==> states.last()[i] == states[0][i],
    decreases texts.len(),
{
    if texts.len() > 0 {
        let prev = states.subrange(0, states.len() - 1);
        let prev_texts = texts.subrange(0, texts.len() - 1);
        assert forall|k: int| 0 <= k < prev_texts.len() implies appended_one(
            prev[k],
            prev[k + 1],
            prev_texts[k],
        ) by {
            assert(appended_one(states[k], states[k + 1], texts[k]));
        }
        lemma_append_run_visibility(prev, prev_texts);
        assert(prev.last() == states[states.len() - 2]);
        assert(appended_one(
            states[states.len() - 2],
            states.last(),
            texts[texts.len() - 1],
        ));
        let n0 = states[0].len();
        assert forall|k: int| 0 <= k < texts.len() implies states.last()[n0 + k].text
            == texts[k] by {
            if k < texts.len() - 1 {
                assert(prev.last()[n0 + k].text == prev_texts[k]);
                assert(states.last()[n0 + k] == states[states.len() - 2][n0 + k]);
            } else {
                assert(states.last()[n0 + k] == states.last().last());
            }
        }
    }
}

/// Law (timestamp immutability): an append never changes the timestamp —
/// nor anything else — of an entry already in the log, so repeated
/// snapshots return the identical timestamp string for that entry.
pub proof fn lemma_timestamp_immutable(
    pre: Seq<BeepView>,
    post: Seq<BeepView>,
    text: Seq<char>,
    i: int,
)
    requires
        appended_one(pre, post, text),
        0 <= i < pre.len(),
    ensures
        post[i].timestamp == pre[i].timestamp,
{
}

/// Law (snapshot isolation): the log a snapshot observed is an exact prefix
/// of the log after any later append — the length never decreases and no
/// already-returned entry is mutated. The snapshot itself is an owned copy
/// (`EventLog::snapshot`), which no later append can reach at all.
pub proof fn lemma_snapshot_isolation(snap: Seq<BeepView>, later: Seq<BeepView>, text: Seq<char>)
    requires
        appended_one(snap, later, text),
    ensures
        later.len() > snap.len(),
        forall|i: int| 0 <= i < snap.len() ==> later[i] == snap[i],
{
}

} // verus!
