//! The transfer pool: pending transfer items grouped by club.

use vstd::prelude::*;

use vstd::hash_map::HashMapWithView;

verus! {

/// Pending transfer items, grouped by the receiving club's identity.
#[verifier::reject_recursive_types(T)]
pub struct TransferPool<T> {
    pub pool: HashMapWithView<u32, Vec<T>>,
}

impl<T> TransferPool<T> {
    /// An empty pool.
    pub fn new() -> (p: TransferPool<T>)
        ensures
            p.pool@ == Map::<u32, Vec<T>>::empty(),
    {
        TransferPool { pool: HashMapWithView::new() }
    }

    /// File `item` under `club_id`, appending to the club's pending
    /// items.
    pub fn push_transfer(&mut self, item: T, club_id: u32)
        ensures
            final(self).pool@.dom() == old(self).pool@.dom().insert(club_id),
            final(self).pool@[club_id]@ == if old(self).pool@.dom().contains(club_id) {
                old(self).pool@[club_id]@.push(item)
            } else {
                seq![item]
            },
            forall|k: u32|
                k != club_id && old(self).pool@.dom().contains(k) ==> final(self).pool@[k]
                    == old(self).pool@[k],
    {
        let mut entry: Vec<T> = match self.pool.remove(&club_id) {
            Some(v) => v,
            None => Vec::new(),
        };
        entry.push(item);
        self.pool.insert(club_id, entry);
        proof {
            assert(self.pool@.dom() =~= old(self).pool@.dom().insert(club_id));
        }
    }

    /// Take and clear the pending items of `club_id`, if it has any.
    pub fn pull_transfers(&mut self, club_id: u32) -> (r: Option<Vec<T>>)
        ensures
            r == if old(self).pool@.dom().contains(club_id) {
                Some(old(self).pool@[club_id])
            } else {
                None::<Vec<T>>
            },
            final(self).pool@ == old(self).pool@.remove(club_id),
    {
        if !self.pool.contains_key(&club_id) {
            proof {
                assert(self.pool@ =~= old(self).pool@.remove(club_id));
            }
            return None;
        }
        self.pool.remove(&club_id)
    }
}

} // verus!
