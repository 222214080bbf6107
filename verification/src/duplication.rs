//! The copies of chunks that a node is in the middle of making.
//!
//! A copy is begun when a node is told to re-host a chunk, and is looked up
//! when a chunk arrives. The id of the exchange is all that ties the two
//! together: copies under different ids know nothing of each other, in
//! whatever order their messages come.
//!
//! An entry is kept for good. Nothing here removes one, so a second chunk
//! that arrives under the same id is matched like the first; and nothing
//! gives a copy up, so where no holder answers the entry stays and the chunk
//! stays one copy short. Whoever wants entries to end must replace the
//! record.

use crate::identity::PublicId;
use crate::names::MessageId;
use vstd::prelude::*;

verus! {

/// The map that a list of entries stands for.
spec fn entries_map(entries: Seq<(MessageId, PublicId)>) -> Map<MessageId, PublicId>
    decreases entries.len(),
{
    if entries.len() == 0 {
        Map::empty()
    } else {
        entries_map(entries.drop_last()).insert(entries.last().0, entries.last().1)
    }
}

/// No id occurs twice.
spec fn distinct_ids(entries: Seq<(MessageId, PublicId)>) -> bool {
    forall|i: int, j: int| 0 <= i < j < entries.len() ==> entries[i].0 != entries[j].0
}

proof fn lemma_entries_map_dom(entries: Seq<(MessageId, PublicId)>, id: MessageId)
    ensures
        entries_map(entries).contains_key(id) <==> exists|i: int|
            0 <= i < entries.len() && (#[trigger] entries[i]).0 == id,
    decreases entries.len(),
{
    if entries.len() > 0 {
        let front = entries.drop_last();
        lemma_entries_map_dom(front, id);
        if entries_map(entries).contains_key(id) {
            if entries.last().0 == id {
                assert(entries[entries.len() - 1].0 == id);
            } else {
                let i = choose|i: int| 0 <= i < front.len() && (#[trigger] front[i]).0 == id;
                assert(entries[i].0 == id);
            }
        }
        if exists|i: int| 0 <= i < entries.len() && (#[trigger] entries[i]).0 == id {
            let i = choose|i: int| 0 <= i < entries.len() && (#[trigger] entries[i]).0 == id;
            if i < entries.len() - 1 {
                assert(front[i].0 == id);
            }
        }
    }
}

proof fn lemma_entries_map_value(entries: Seq<(MessageId, PublicId)>, i: int)
    requires
        distinct_ids(entries),
        0 <= i < entries.len(),
    ensures
        entries_map(entries).contains_key(entries[i].0),
        entries_map(entries)[entries[i].0] == entries[i].1,
    decreases entries.len(),
{
    let front = entries.drop_last();
    if i < entries.len() - 1 {
        assert(distinct_ids(front)) by {
            assert forall|a: int, b: int| 0 <= a < b < front.len() implies front[a].0
                != front[b].0 by {
                assert(front[a] == entries[a] && front[b] == entries[b]);
            }
        }
        lemma_entries_map_value(front, i);
        assert(front[i] == entries[i]);
    }
}

proof fn lemma_entries_map_len(entries: Seq<(MessageId, PublicId)>)
    requires
        distinct_ids(entries),
    ensures
        entries_map(entries).dom().finite(),
        entries_map(entries).len() == entries.len(),
    decreases entries.len(),
{
    if entries.len() > 0 {
        let front = entries.drop_last();
        let last = entries.last();
        assert(distinct_ids(front)) by {
            assert forall|a: int, b: int| 0 <= a < b < front.len() implies front[a].0
                != front[b].0 by {
                assert(front[a] == entries[a] && front[b] == entries[b]);
            }
        }
        lemma_entries_map_len(front);
        lemma_entries_map_dom(front, last.0);
        assert(!entries_map(front).contains_key(last.0)) by {
            if entries_map(front).contains_key(last.0) {
                let i = choose|i: int| 0 <= i < front.len() && (#[trigger] front[i]).0 == last.0;
                assert(entries[i].0 == entries[entries.len() - 1].0);
            }
        }
        assert(entries_map(entries).dom() =~= entries_map(front).dom().insert(last.0));
    }
}

/// For each copy under way, who asked for it.
#[derive(Debug)]
pub struct PendingDuplications {
    entries: Vec<(MessageId, PublicId)>,
}

impl View for PendingDuplications {
    type V = Map<MessageId, PublicId>;

    closed spec fn view(&self) -> Map<MessageId, PublicId> {
        entries_map(self.entries@)
    }
}

impl PendingDuplications {
    #[verifier::type_invariant]
    spec fn well_formed(&self) -> bool {
        distinct_ids(self.entries@)
    }

    /// A record with no copy under way.
    pub fn new() -> (pending: PendingDuplications)
        ensures
            pending@ == Map::<MessageId, PublicId>::empty(),
    {
        PendingDuplications { entries: Vec::new() }
    }

    /// How many copies are under way.
    pub fn len(&self) -> (n: usize)
        ensures
            self@.dom().finite(),
            n == self@.len(),
    {
        proof {
            use_type_invariant(self);
            lemma_entries_map_len(self.entries@);
        }
        self.entries.len()
    }

    /// Who asked for the copy with this id, if there is one under way. The
    /// entry stays.
    pub fn resolve(&self, id: &MessageId) -> (requester: Option<PublicId>)
        ensures
            requester == (if self@.contains_key(*id) {
                Some(self@[*id])
            } else {
                None
            }),
    {
        proof {
            use_type_invariant(self);
        }
        let mut i: usize = 0;
        while i < self.entries.len()
            invariant
                i <= self.entries.len(),
                distinct_ids(self.entries@),
                forall|j: int| 0 <= j < i ==> (#[trigger] self.entries@[j]).0 != *id,
            decreases self.entries.len() - i,
        {
            if self.entries[i].0 == *id {
                proof {
                    lemma_entries_map_value(self.entries@, i as int);
                }
                return Some(self.entries[i].1);
            }
            i += 1;
        }
        proof {
            lemma_entries_map_dom(self.entries@, *id);
        }
        None
    }

    /// Whether a copy with this id is under way.
    pub fn contains(&self, id: &MessageId) -> (found: bool)
        ensures
            found == self@.contains_key(*id),
    {
        self.resolve(id).is_some()
    }

    /// Begins the copy with this id for `requester`, unless one is under way
    /// already: then nothing changes. Says whether it began.
    pub fn begin(&mut self, id: MessageId, requester: PublicId) -> (begun: bool)
        ensures
            begun == !old(self)@.contains_key(id),
            begun ==> final(self)@ == old(self)@.insert(id, requester),
            !begun ==> final(self)@ == old(self)@,
    {
        proof {
            use_type_invariant(&*self);
        }
        if self.contains(&id) {
            return false;
        }
        let ghost before = self.entries@;
        let mut entries: Vec<(MessageId, PublicId)> = Vec::new();
        core::mem::swap(&mut self.entries, &mut entries);
        entries.push((id, requester));
        proof {
            lemma_entries_map_dom(before, id);
            assert(entries@.drop_last() =~= before);
            assert forall|i: int, j: int| 0 <= i < j < entries@.len() implies entries@[i].0
                != entries@[j].0 by {
                if j < before.len() {
                    assert(entries@[i] == before[i] && entries@[j] == before[j]);
                } else {
                    assert(entries@[i] == before[i]);
                }
            }
        }
        self.entries = entries;
        true
    }
}

} // verus!
