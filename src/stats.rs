//! Per-protocol counters of a capture session.
use crate::classify::{classify_spec, ProtocolTag};
use vstd::prelude::*;

verus! {

/// The count of `tag` in a table: zero when the tag was never seen.
pub open spec fn count_of(m: Map<ProtocolTag, nat>, tag: ProtocolTag) -> nat {
    if m.contains_key(tag) {
        m[tag]
    } else {
        0
    }
}

/// The table after one more occurrence of `tag`.
pub open spec fn bump(m: Map<ProtocolTag, nat>, tag: ProtocolTag) -> Map<ProtocolTag, nat> {
    m.insert(tag, count_of(m, tag) + 1)
}

/// The sum of all counts of a table.
pub open spec fn total(m: Map<ProtocolTag, nat>) -> nat {
    count_of(m, ProtocolTag::Ipv4) + count_of(m, ProtocolTag::Arp) + count_of(m, ProtocolTag::Unknown)
}

/// The table that recording the tags of `frames`, in order, gives from an empty one.
pub open spec fn tally(frames: Seq<Seq<u8>>) -> Map<ProtocolTag, nat>
    decreases frames.len(),
{
    if frames.len() == 0 {
        Map::empty()
    } else {
        bump(tally(frames.drop_last()), classify_spec(frames.last()))
    }
}

/// `entries` lists the table `m`: one pair per key, each with its count.
pub open spec fn lists(entries: Seq<(ProtocolTag, usize)>, m: Map<ProtocolTag, nat>) -> bool {
    &&& forall|i: int, j: int|
        0 <= i < j < entries.len() ==> #[trigger] entries[i].0 != #[trigger] entries[j].0
    &&& forall|i: int|
        0 <= i < entries.len() ==> m.contains_key(#[trigger] entries[i].0) && m[entries[i].0]
            == entries[i].1 as nat
    &&& forall|t: ProtocolTag|
        #[trigger] m.contains_key(t) ==> exists|i: int| 0 <= i < entries.len() && entries[i].0 == t
}

/// Counts of classified frames, keyed by tag. Counts only grow.
pub struct StatsTable {
    entries: Vec<(ProtocolTag, usize)>,
    counts: Ghost<Map<ProtocolTag, nat>>,
}

impl View for StatsTable {
    type V = Map<ProtocolTag, nat>;

    closed spec fn view(&self) -> Map<ProtocolTag, nat> {
        self.counts@
    }
}

impl StatsTable {
    /// The entries list the counts, in the order in which tags were first seen.
    pub closed spec fn wf(&self) -> bool {
        lists(self.entries@, self.counts@)
    }

    /// An empty table.
    pub fn new() -> (r: Self)
        ensures
            r.wf(),
            r@ == Map::<ProtocolTag, nat>::empty(),
    {
        StatsTable { entries: Vec::new(), counts: Ghost(Map::empty()) }
    }

    /// Records one occurrence of `tag`, adding it with a count of one if unseen.
    pub fn record(&mut self, tag: ProtocolTag)
        requires
            old(self).wf(),
            count_of(old(self)@, tag) < usize::MAX,
        ensures
            final(self).wf(),
            final(self)@ == bump(old(self)@, tag),
    {
        let mut i: usize = 0;
        while i < self.entries.len()
            invariant
                self.wf(),
                self.entries@ == old(self).entries@,
                self.counts@ == old(self).counts@,
                count_of(old(self)@, tag) < usize::MAX,
                i <= self.entries.len(),
                forall|k: int| 0 <= k < i ==> self.entries@[k].0 != tag,
            decreases self.entries.len() - i,
        {
            if self.entries[i].0 == tag {
                let c = self.entries[i].1;
                assert(self.counts@.contains_key(self.entries@[i as int].0));
                self.entries.set(i, (tag, c + 1));
                self.counts = Ghost(bump(self.counts@, tag));
                assert(self.entries@ == old(self).entries@.update(i as int, (tag, (c + 1) as usize)));
                assert forall|t: ProtocolTag| #[trigger] self.counts@.contains_key(t) implies exists|k: int|
                    0 <= k < self.entries@.len() && self.entries@[k].0 == t by {
                    if t != tag {
                        assert(old(self).counts@.contains_key(t));
                        let k = choose|k: int| 0 <= k < old(self).entries@.len() && old(self).entries@[k].0 == t;
                        assert(self.entries@[k].0 == t);
                    } else {
                        assert(self.entries@[i as int].0 == t);
                    }
                }
                return;
            }
            i = i + 1;
        }
        proof {
            if old(self).counts@.contains_key(tag) {
                let k = choose|k: int| 0 <= k < old(self).entries@.len() && old(self).entries@[k].0 == tag;
                assert(self.entries@[k].0 == tag);
            }
        }
        self.entries.push((tag, 1));
        self.counts = Ghost(bump(self.counts@, tag));
        assert forall|t: ProtocolTag| #[trigger] self.counts@.contains_key(t) implies exists|k: int|
            0 <= k < self.entries@.len() && self.entries@[k].0 == t by {
            if t != tag {
                assert(old(self).counts@.contains_key(t));
                let k = choose|k: int| 0 <= k < old(self).entries@.len() && old(self).entries@[k].0 == t;
                assert(self.entries@[k].0 == t);
            } else {
                assert(self.entries@[self.entries@.len() - 1].0 == t);
            }
        }
    }

    /// The count of `tag`: zero when it was never recorded.
    pub fn count(&self, tag: ProtocolTag) -> (r: usize)
        requires
            self.wf(),
        ensures
            r as nat == count_of(self@, tag),
    {
        let mut i: usize = 0;
        while i < self.entries.len()
            invariant
                self.wf(),
                i <= self.entries.len(),
                forall|k: int| 0 <= k < i ==> self.entries@[k].0 != tag,
            decreases self.entries.len() - i,
        {
            if self.entries[i].0 == tag {
                return self.entries[i].1;
            }
            i = i + 1;
        }
        proof {
            if self@.contains_key(tag) {
                let k = choose|k: int| 0 <= k < self.entries@.len() && self.entries@[k].0 == tag;
                assert(self.entries@[k].0 == tag);
            }
        }
        0
    }

    /// A copy of the table's entries, in the order in which tags were first
    /// seen; later recordings do not change it.
    pub fn snapshot(&self) -> (r: Vec<(ProtocolTag, usize)>)
        requires
            self.wf(),
        ensures
            lists(r@, self@),
    {
        let mut r: Vec<(ProtocolTag, usize)> = Vec::new();
        let mut i: usize = 0;
        while i < self.entries.len()
            invariant
                self.wf(),
                i <= self.entries.len(),
                r@ == self.entries@.subrange(0, i as int),
            decreases self.entries.len() - i,
        {
            r.push(self.entries[i]);
            i = i + 1;
        }
        assert(r@ == self.entries@);
        r
    }
}

/// Recording one tag adds exactly one to the sum of the counts.
pub proof fn lemma_bump_total(m: Map<ProtocolTag, nat>, tag: ProtocolTag)
    ensures
        total(bump(m, tag)) == total(m) + 1,
{
}

/// The counts of a table filled from a sequence of frames sum to the number
/// of frames: no frame is dropped or counted twice.
pub proof fn lemma_tally_total(frames: Seq<Seq<u8>>)
    ensures
        total(tally(frames)) == frames.len(),
    decreases frames.len(),
{
    if frames.len() > 0 {
        lemma_tally_total(frames.drop_last());
        lemma_bump_total(tally(frames.drop_last()), classify_spec(frames.last()));
    }
}

} // verus!
