//! Reorganisation-safe finality bookkeeping.
//!
//! Heights strictly below `final_below` are final. A height becomes final
//! once some observed height exceeds it by more than the threshold, and it
//! never stops being final. Heights at or above the bound stay pending: the
//! identifier seen at each is remembered so that a competing block at the
//! same height is recognised as a reorganisation.

use vstd::prelude::*;
use crate::listeners::observation::{BlockId, Sighting, Standing, Verdict};

verus! {

/// The bound below which heights are final once `height` has been observed:
/// a height is final when it lies more than `threshold` below an observed one.
pub open spec fn settle_bound(final_below: u64, threshold: u64, height: u64) -> u64 {
    let reach = if height > threshold { (height - threshold) as u64 } else { 0u64 };
    if reach > final_below { reach } else { final_below }
}

/// The bookkeeping as a mathematical value: heights strictly below
/// `final_below` are final, and `pending` maps each height that awaits
/// finality to the identifier seen there.
#[verifier::ext_equal]
pub struct Ledger {
    pub final_below: u64,
    pub pending: Map<u64, BlockId>,
}

impl Ledger {
    /// Nothing observed, nothing final.
    pub open spec fn empty() -> Ledger {
        Ledger { final_below: 0, pending: Map::empty() }
    }

    /// Whether `height` is final.
    pub open spec fn is_final(self, height: u64) -> bool {
        height < self.final_below
    }

    /// How a sighting at `height` with identifier `id` stands.
    pub open spec fn standing(self, height: u64, id: BlockId) -> Standing {
        if height < self.final_below {
            Standing::Settled
        } else if self.pending.contains_key(height) && self.pending[height] == id {
            Standing::Repeated
        } else if exists|k: u64| k >= height && #[trigger] self.pending.contains_key(k) {
            Standing::Reorganized
        } else {
            Standing::Fresh
        }
    }

    /// The bound after a sighting at `height`. A sighting at a final height
    /// leaves it alone; any other can only raise it.
    pub open spec fn bound_after(self, threshold: u64, height: u64) -> u64 {
        if height < self.final_below {
            self.final_below
        } else {
            settle_bound(self.final_below, threshold, height)
        }
    }

    /// The bookkeeping after a sighting at `height`. A sighting at a final
    /// height changes nothing. A repeated one keeps what is recorded. Any
    /// other replaces what was recorded at `height` and above. In each case
    /// what fell below the new bound leaves.
    pub open spec fn record(self, threshold: u64, height: u64, id: BlockId) -> Ledger {
        let standing = self.standing(height, id);
        let bound = self.bound_after(threshold, height);
        if standing is Settled {
            self
        } else {
            Ledger {
                final_below: bound,
                pending: Map::new(
                    |k: u64|
                        k >= bound && (k == height || (self.pending.contains_key(k) && (k < height
                            || standing is Repeated))),
                    |k: u64|
                        if k == height {
                            id
                        } else {
                            self.pending[k]
                        },
                ),
            }
        }
    }

    /// What is reported for a sighting at `height`: its standing and the
    /// range of heights that became final with it.
    pub open spec fn verdict(self, threshold: u64, height: u64, id: BlockId) -> Verdict {
        Verdict {
            standing: self.standing(height, id),
            settled_from: self.final_below,
            settled_below: self.bound_after(threshold, height),
        }
    }
}

/// Once final, always final: whatever is sighted next, under whatever
/// threshold, a height that was final is final afterwards, and the bound
/// has not fallen.
pub proof fn law_final_stays_final(ledger: Ledger, threshold: u64, next: Sighting, height: u64)
    requires
        ledger.is_final(height),
    ensures
        ledger.record(threshold, next.height, next.id).is_final(height),
        ledger.record(threshold, next.height, next.id).final_below >= ledger.final_below,
{
}

/// A sighting at a final height is told apart as settled and changes
/// nothing: it finalises nothing and takes the place of no recorded block.
pub proof fn law_final_height_is_closed(ledger: Ledger, threshold: u64, next: Sighting)
    requires
        ledger.is_final(next.height),
    ensures
        ledger.standing(next.height, next.id) is Settled,
        ledger.record(threshold, next.height, next.id) == ledger,
        ledger.verdict(threshold, next.height, next.id).settled_below == ledger.final_below,
{
}

/// A height becomes final only when a sighting lies more than the threshold
/// above it: after a sighting that took effect, every final height that was
/// not final before is more than `threshold` below the sighted one.
pub proof fn law_final_needs_depth(ledger: Ledger, threshold: u64, next: Sighting, height: u64)
    requires
        !ledger.is_final(height),
        ledger.record(threshold, next.height, next.id).is_final(height),
    ensures
        height + threshold < next.height,
{
}

/// A reorganisation stays clear of what is final: the sighting that brings
/// it stands at a height that is not final, and so does everything it
/// replaces.
pub proof fn law_reorganisation_spares_final(ledger: Ledger, next: Sighting, height: u64)
    requires
        ledger.standing(next.height, next.id) is Reorganized,
        height >= next.height,
    ensures
        !ledger.is_final(height),
{
}

/// No pending height is final, before a sighting or after it.
pub proof fn law_pending_is_not_final(ledger: Ledger, threshold: u64, next: Sighting, height: u64)
    requires
        forall|k: u64| #[trigger] ledger.pending.contains_key(k) ==> !ledger.is_final(k),
        ledger.record(threshold, next.height, next.id).pending.contains_key(height),
    ensures
        !ledger.record(threshold, next.height, next.id).is_final(height),
{
}

/// Strictly ascending by height.
spec fn ascending(s: Seq<Sighting>) -> bool {
    forall|i: int, j: int| 0 <= i < j < s.len() ==> s[i].height < s[j].height
}

/// Whether some entry of `s` stands at height `k`.
spec fn holds(s: Seq<Sighting>, k: u64) -> bool {
    exists|i: int| 0 <= i < s.len() && #[trigger] s[i].height == k
}

/// The index of an entry of `s` at height `k`.
spec fn slot(s: Seq<Sighting>, k: u64) -> int {
    choose|i: int| 0 <= i < s.len() && #[trigger] s[i].height == k
}

/// The heights of `s`, each with the identifier recorded there.
spec fn recorded(s: Seq<Sighting>) -> Map<u64, BlockId> {
    Map::new(|k: u64| holds(s, k), |k: u64| s[slot(s, k)].id)
}

/// In an ascending sequence each entry is the one recorded at its height.
proof fn lemma_recorded_entry(s: Seq<Sighting>, i: int)
    requires
        ascending(s),
        0 <= i < s.len(),
    ensures
        holds(s, s[i].height),
        slot(s, s[i].height) == i,
        recorded(s).contains_key(s[i].height),
        recorded(s)[s[i].height] == s[i].id,
{
    let k = s[i].height;
    assert(s[i].height == k);
    let j = slot(s, k);
    assert(0 <= j < s.len() && s[j].height == k);
    if j < i {
        assert(s[j].height < s[i].height);
    } else if i < j {
        assert(s[i].height < s[j].height);
    }
}

/// An ascending sequence records as many heights as it has entries.
proof fn lemma_recorded_len(s: Seq<Sighting>)
    requires
        ascending(s),
    ensures
        recorded(s).dom().finite(),
        recorded(s).dom().len() == s.len(),
    decreases s.len(),
{
    if s.len() == 0 {
        assert(recorded(s).dom() =~= Set::<u64>::empty());
    } else {
        let front = s.drop_last();
        let top = s.last();
        lemma_recorded_len(front);
        assert forall|k: u64| recorded(s).dom().contains(k) <==> recorded(front).dom().insert(
            top.height,
        ).contains(k) by {
            if holds(s, k) {
                let j = slot(s, k);
                if j < front.len() {
                    assert(front[j].height == k);
                }
            }
            if holds(front, k) {
                let j = slot(front, k);
                assert(s[j].height == k);
            }
            if k == top.height {
                assert(s[s.len() - 1].height == k);
            }
        }
        assert(recorded(s).dom() =~= recorded(front).dom().insert(top.height));
        if holds(front, top.height) {
            let j = slot(front, top.height);
            assert(s[j].height < s[s.len() - 1].height);
        }
    }
}

/// The bookkeeping of observed heights and of what has become final.
pub struct Finality {
    final_below: u64,
    pending: Vec<Sighting>,
}

impl View for Finality {
    type V = Ledger;

    closed spec fn view(&self) -> Ledger {
        Ledger { final_below: self.final_below, pending: recorded(self.pending@) }
    }
}

impl Finality {
    /// The pending heights are kept in ascending order and none of them is
    /// final.
    #[verifier::type_invariant]
    spec fn wf(&self) -> bool {
        &&& ascending(self.pending@)
        &&& forall|i: int|
            0 <= i < self.pending@.len() ==> #[trigger] self.pending@[i].height >= self.final_below
    }

    /// Bookkeeping with nothing observed and nothing final.
    pub fn new() -> (fresh: Finality)
        ensures
            fresh@ == Ledger::empty(),
    {
        let fresh = Finality { final_below: 0, pending: Vec::new() };
        assert(fresh@.pending =~= Map::<u64, BlockId>::empty());
        fresh
    }

    /// The bound below which heights are final.
    pub fn final_below(&self) -> (bound: u64)
        ensures
            bound == self@.final_below,
    {
        self.final_below
    }

    /// The number of heights awaiting finality.
    pub fn pending_len(&self) -> (count: usize)
        ensures
            count == self@.pending.dom().len(),
            self@.pending.dom().finite(),
    {
        proof {
            use_type_invariant(self);
            lemma_recorded_len(self.pending@);
        }
        self.pending.len()
    }

    /// Records one sighting under the given threshold and reports how it
    /// stands and which heights became final with it.
    pub fn observe(&mut self, threshold: u64, height: u64, id: BlockId) -> (verdict: Verdict)
        ensures
            final(self)@ == old(self)@.record(threshold, height, id),
            verdict == old(self)@.verdict(threshold, height, id),
    {
        proof {
            use_type_invariant(&*self);
        }
        let was_below = self.final_below;
        if height < was_below {
            return Verdict {
                standing: Standing::Settled,
                settled_from: was_below,
                settled_below: was_below,
            };
        }
        let ghost before = self.pending@;
        let ghost ledger = self@;
        let count = self.pending.len();
        let mut cut: usize = 0;
        while cut < count && self.pending[cut].height < height
            invariant
                cut <= count,
                count == self.pending@.len(),
                self.pending@ == before,
                forall|i: int| 0 <= i < cut ==> before[i].height < height,
            decreases count - cut,
        {
            cut += 1;
        }
        let repeated = cut < count && self.pending[cut].height == height && self.pending[cut].id
            == id;
        let standing = if repeated {
            Standing::Repeated
        } else if cut < count {
            Standing::Reorganized
        } else {
            Standing::Fresh
        };
        proof {
            if cut < count {
                lemma_recorded_entry(before, cut as int);
                assert(before[cut as int].height >= height);
            } else {
                assert forall|k: u64| k >= height implies !#[trigger] recorded(before).contains_key(
                    k,
                ) by {
                    if holds(before, k) {
                        let j = slot(before, k);
                        assert(before[j].height < height);
                    }
                }
            }
            if recorded(before).contains_key(height) {
                let j = slot(before, height);
                lemma_recorded_entry(before, j);
                assert(j >= cut);
                if j > cut {
                    assert(before[cut as int].height < before[j].height);
                }
                assert(j == cut);
            }
            assert(standing == ledger.standing(height, id));
        }
        let bound = if height > threshold && height - threshold > was_below {
            height - threshold
        } else {
            was_below
        };
        let upto = if repeated {
            count
        } else {
            cut
        };
        let mut from: usize = 0;
        while from < upto && self.pending[from].height < bound
            invariant
                from <= upto <= count,
                count == self.pending@.len(),
                self.pending@ == before,
                forall|i: int| 0 <= i < from ==> before[i].height < bound,
            decreases upto - from,
        {
            from += 1;
        }
        let mut kept: Vec<Sighting> = Vec::new();
        let mut at: usize = from;
        while at < upto
            invariant
                from <= at <= upto <= count,
                count == self.pending@.len(),
                self.pending@ == before,
                kept@ == before.subrange(from as int, at as int),
            decreases upto - at,
        {
            kept.push(self.pending[at]);
            at += 1;
            assert(kept@ =~= before.subrange(from as int, at as int));
        }
        if !repeated {
            kept.push(Sighting { height, id });
        }
        let ghost after = kept@;
        proof {
            let middle = before.subrange(from as int, upto as int);
            assert(after =~= if repeated {
                middle
            } else {
                middle.push(Sighting { height, id })
            });
            assert forall|i: int| 0 <= i < middle.len() implies #[trigger] middle[i].height
                >= bound by {
                assert(middle[i] == before[from + i]);
                if i > 0 {
                    assert(before[from as int].height < before[from + i].height);
                }
            }
            assert(ascending(after));
            assert forall|i: int| 0 <= i < after.len() implies #[trigger] after[i].height
                >= bound by {
                if i < middle.len() {
                    assert(after[i] == middle[i]);
                }
            }
            let target = ledger.record(threshold, height, id).pending;
            assert forall|k: u64| recorded(after).contains_key(k) implies target.contains_key(k)
                && target[k] == recorded(after)[k] by {
                let j = slot(after, k);
                lemma_recorded_entry(after, j);
                if j < middle.len() {
                    lemma_recorded_entry(before, from + j);
                    if !repeated && from + j < cut - 1 {
                        assert(before[from + j].height < before[cut as int - 1].height);
                    }
                }
            }
            assert forall|k: u64| target.contains_key(k) implies recorded(after).contains_key(
                k,
            ) by {
                if k == height && !repeated {
                    lemma_recorded_entry(after, after.len() - 1);
                } else {
                    let j = slot(before, k);
                    lemma_recorded_entry(before, j);
                    if !repeated && j >= cut && cut < count {
                        if j > cut {
                            assert(before[cut as int].height < before[j].height);
                        }
                    }
                    assert(j < upto);
                    if j < from {
                        assert(before[j].height < bound);
                    }
                    assert(after[j - from] == before[j]);
                    lemma_recorded_entry(after, j - from);
                }
            }
            assert(recorded(after) =~= target);
        }
        self.pending = kept;
        self.final_below = bound;
        Verdict { standing, settled_from: was_below, settled_below: bound }
    }
}

} // verus!
