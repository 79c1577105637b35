//! The daemon's book of requests sent to the plugin and not yet answered.
//! Each request gets the next id (counting up from 1) and waits under it
//! until a reply with that id settles it, or the plugin goes away and every
//! waiting request is failed at once.

use vstd::prelude::*;
use std::collections::HashMap;
use vstd::std_specs::iter::IteratorSpec;

verus! {

broadcast use vstd::std_specs::hash::group_hash_axioms;

/// Requests awaiting the plugin's reply, each holding what the reply is
/// handed to, under the id it was sent with.
pub struct Requests<T> {
    last_id: u64,
    pending: HashMap<u64, T>,
}

impl<T> Requests<T> {
    /// The last id handed out (0 before the first request).
    pub closed spec fn last(&self) -> u64 {
        self.last_id
    }

    /// The waiting requests by id.
    pub closed spec fn waiting(&self) -> Map<u64, T> {
        self.pending@
    }

    /// Every waiting id has been handed out: it lies in `1..=last`.
    pub open spec fn wf(&self) -> bool {
        forall|id: u64| #[trigger] self.waiting().contains_key(id) ==> 1 <= id <= self.last()
    }

    /// An empty book.
    pub fn new() -> (r: Self)
        ensures
            r.wf(),
            r.last() == 0,
            r.waiting() == Map::<u64, T>::empty(),
    {
        Requests { last_id: 0, pending: HashMap::new() }
    }

    /// The last id handed out.
    pub fn last_id(&self) -> (r: u64)
        ensures
            r == self.last(),
    {
        self.last_id
    }

    /// Files a new request under the next id and returns that id.
    pub fn register(&mut self, reply: T) -> (id: u64)
        requires
            old(self).wf(),
            old(self).last() < u64::MAX,
        ensures
            final(self).wf(),
            id == old(self).last() + 1,
            final(self).last() == id,
            !old(self).waiting().contains_key(id),
            final(self).waiting() == old(self).waiting().insert(id, reply),
    {
        let id = self.last_id + 1;
        self.last_id = id;
        self.pending.insert(id, reply);
        proof {
            assert forall|k: u64| #[trigger] self.pending@.contains_key(k) implies 1 <= k <= id by {
                if k != id {
                    assert(old(self).waiting().contains_key(k));
                }
            }
        }
        id
    }

    /// Takes the request `id` out of the book, if it is waiting.
    pub fn settle(&mut self, id: u64) -> (r: Option<T>)
        requires
            old(self).wf(),
        ensures
            final(self).wf(),
            final(self).last() == old(self).last(),
            final(self).waiting() == old(self).waiting().remove(id),
            match r {
                Some(v) => old(self).waiting().contains_key(id) && v == old(self).waiting()[id],
                None => !old(self).waiting().contains_key(id),
            },
    {
        let r = self.pending.remove(&id);
        proof {
            assert forall|k: u64| #[trigger] self.pending@.contains_key(k) implies 1 <= k <= self.last_id by {
                assert(old(self).waiting().contains_key(k));
            }
        }
        r
    }

    /// Takes every waiting request out of the book.
    pub fn drain(&mut self) -> (r: Vec<T>)
        requires
            old(self).wf(),
        ensures
            final(self).wf(),
            final(self).last() == old(self).last(),
            final(self).waiting() == Map::<u64, T>::empty(),
            exists|ids: Seq<u64>|
                {
                    &&& ids.no_duplicates()
                    &&& ids.to_set() == old(self).waiting().dom()
                    &&& r@ == ids.map_values(|id: u64| old(self).waiting()[id])
                },
    {
        let ghost start = self.pending@;
        let ghost last = self.last_id;
        let ghost keys = vstd::std_specs::hash::spec_keys_iter(&self.pending).remaining();
        let mut ids: Vec<u64> = Vec::new();
        for k in it: self.pending.keys()
            invariant
                it.seq() == keys,
                ids@ == keys.take(it.index()).unref(),
        {
            ids.push(*k);
        }
        assert(ids@ == keys.unref());
        let mut out: Vec<T> = Vec::new();
        let mut i: usize = 0;
        while i < ids.len()
            invariant
                i <= ids@.len(),
                self.last_id == last,
                ids@.no_duplicates(),
                ids@.to_set() == start.dom(),
                forall|k: u64| #[trigger] self.pending@.contains_key(k)
                    <==> (start.contains_key(k) && !ids@.take(i as int).contains(k)),
                forall|k: u64| #[trigger] self.pending@.contains_key(k) ==> self.pending@[k] == start[k],
                out@ == ids@.take(i as int).map_values(|id: u64| start[id]),
            decreases ids@.len() - i,
        {
            let id = ids[i];
            proof {
                assert(ids@.to_set().contains(id));
                assert(!ids@.take(i as int).contains(id)) by {
                    if ids@.take(i as int).contains(id) {
                        let j = choose|j: int| 0 <= j < i && ids@.take(i as int)[j] == id;
                        assert(ids@[j] == ids@[i as int]);
                    }
                }
            }
            let v = self.pending.remove(&id);
            out.push(v.unwrap());
            proof {
                let done = ids@.take(i as int);
                let next = ids@.take(i + 1);
                assert(next == done.push(id));
                assert forall|k: u64| #[trigger] next.contains(k) <==> (done.contains(k) || k == id) by {
                    if next.contains(k) && k != id {
                        let j = choose|j: int| 0 <= j < next.len() && #[trigger] next[j] == k;
                        assert(done[j] == k);
                    }
                    if done.contains(k) {
                        let j = choose|j: int| 0 <= j < done.len() && #[trigger] done[j] == k;
                        assert(next[j] == k);
                    }
                    if k == id {
                        assert(next[i as int] == id);
                    }
                }
            }
            i = i + 1;
        }
        proof {
            assert(ids@.take(ids@.len() as int) == ids@);
            assert forall|k: u64| !#[trigger] self.pending@.contains_key(k) by {
                if start.contains_key(k) {
                    assert(ids@.to_set().contains(k));
                }
            }
            assert(self.pending@ =~= Map::<u64, T>::empty());
        }
        out
    }
}

/// Law: a request filed under the next id is the one a reply with that id
/// settles: the reply is handed exactly what was filed, and the other
/// requests are left waiting as they were.
pub proof fn lemma_reply_settles_its_request<T>(book: Requests<T>, reply: T)
    requires
        book.wf(),
        book.last() < u64::MAX,
    ensures
        ({
            let id = (book.last() + 1) as u64;
            let filed = book.waiting().insert(id, reply);
            &&& !book.waiting().contains_key(id)
            &&& filed.contains_key(id)
            &&& filed[id] == reply
            &&& filed.remove(id) == book.waiting()
        }),
{
    let id = (book.last() + 1) as u64;
    assert(book.waiting().insert(id, reply).remove(id) =~= book.waiting());
}

} // verus!
