use vstd::prelude::*;
use vstd::seq_lib::group_filter_ensures;

verus! {

/// A connected client that receives the status broadcasts, under the label
/// it was given on connecting.
pub struct Observer<T> {
    pub label: u64,
    pub handle: T,
}

/// The labels of a sequence of observers.
pub open spec fn labels<T>(obs: Seq<Observer<T>>) -> Seq<u64> {
    obs.map_values(|o: Observer<T>| o.label)
}

/// The observers whose label is not among `failed`, in the same order.
pub open spec fn survivors<T>(obs: Seq<Observer<T>>, failed: Seq<u64>) -> Seq<Observer<T>> {
    obs.filter(|o: Observer<T>| !failed.contains(o.label))
}

/// Labels strictly increase along the sequence and stay below `bound`.
pub open spec fn ordered_below<T>(obs: Seq<Observer<T>>, bound: u64) -> bool {
    &&& forall|a: int, b: int| 0 <= a < b < obs.len() ==> obs[a].label < obs[b].label
    &&& forall|a: int| 0 <= a < obs.len() ==> obs[a].label < bound
}

/// The live observers, in order of connection. Each is given the next label
/// of a counter, so that no two observers ever share one.
pub struct ConnectionRegistry<T> {
    next_label: u64,
    observers: Vec<Observer<T>>,
}

impl<T> View for ConnectionRegistry<T> {
    type V = Seq<Observer<T>>;

    closed spec fn view(&self) -> Seq<Observer<T>> {
        self.observers@
    }
}

fn contains_label(failed: &Vec<u64>, label: u64) -> (r: bool)
    ensures
        r == failed@.contains(label),
{
    let mut i: usize = 0;
    while i < failed.len()
        invariant
            i <= failed.len(),
            forall|k: int| 0 <= k < i ==> failed@[k] != label,
        decreases failed.len() - i,
    {
        if failed[i] == label {
            return true;
        }
        i = i + 1;
    }
    false
}

impl<T> ConnectionRegistry<T> {
    #[verifier::type_invariant]
    spec fn inv(self) -> bool {
        &&& self.next_label >= 1
        &&& ordered_below(self.observers@, self.next_label)
    }

    /// The label the next observer to connect will get.
    pub closed spec fn next(&self) -> u64 {
        self.next_label
    }

    /// An empty registry whose first label is 1.
    pub fn new() -> (r: Self)
        ensures
            r@ == Seq::<Observer<T>>::empty(),
            r.next() == 1,
    {
        ConnectionRegistry { next_label: 1, observers: Vec::new() }
    }

    /// Adds an observer under a label that no observer had before, and
    /// returns it; when the labels are exhausted the registry is unchanged.
    pub fn register(&mut self, handle: T) -> (r: Option<u64>)
        ensures
            old(self).next() == u64::MAX ==> r is None && final(self)@ == old(self)@
                && final(self).next() == old(self).next(),
            old(self).next() < u64::MAX ==> {
                &&& r == Some(old(self).next())
                &&& !labels(old(self)@).contains(old(self).next())
                &&& final(self)@ == old(self)@.push(Observer { label: old(self).next(), handle })
                &&& final(self).next() == old(self).next() + 1
            },
    {
        proof {
            use_type_invariant(&*self);
        }
        if self.next_label == u64::MAX {
            return None;
        }
        let label = self.next_label;
        let mut taken = ConnectionRegistry::new();
        std::mem::swap(self, &mut taken);
        let mut observers = taken.observers;
        proof {
            if labels(observers@).contains(label) {
                let k = choose|k: int| 0 <= k < observers@.len() && labels(observers@)[k] == label;
                assert(observers@[k].label == label);
            }
        }
        observers.push(Observer { label, handle });
        *self = ConnectionRegistry { next_label: label + 1, observers };
        Some(label)
    }

    /// The number of observers.
    pub fn len(&self) -> (r: usize)
        ensures
            r == self@.len(),
    {
        self.observers.len()
    }

    /// The observer at position `i`, in order of connection.
    pub fn observer(&self, i: usize) -> (r: &Observer<T>)
        requires
            i < self@.len(),
        ensures
            *r == self@[i as int],
    {
        &self.observers[i]
    }

    /// Removes, after a broadcast pass, every observer whose send failed; the
    /// others stay, in the same order and under the same labels.
    pub fn evict(&mut self, failed: &Vec<u64>)
        ensures
            final(self)@ == survivors(old(self)@, failed@),
            final(self).next() == old(self).next(),
    {
        proof {
            use_type_invariant(&*self);
        }
        let next_label = self.next_label;
        let mut taken = ConnectionRegistry::new();
        std::mem::swap(self, &mut taken);
        let mut obs = taken.observers;
        let ghost orig = obs@;
        let ghost keep = |o: Observer<T>| !failed@.contains(o.label);
        let mut i: usize = 0;
        let ghost mut j: int = 0;
        while i < obs.len()
            invariant
                i <= obs.len(),
                0 <= j <= orig.len(),
                obs@ == orig.subrange(0, j).filter(keep) + orig.subrange(j, orig.len() as int),
                i == orig.subrange(0, j).filter(keep).len(),
                ordered_below(obs@, next_label),
                keep == (|o: Observer<T>| !failed@.contains(o.label)),
            decreases obs.len() - i,
        {
            let ghost before = orig.subrange(0, j);
            proof {
                assert(orig.subrange(0, j + 1) =~= before.push(orig[j]));
                before.lemma_filter_push(orig[j], keep);
                assert(obs@[i as int] == orig[j]);
            }
            if contains_label(failed, obs[i].label) {
                obs.remove(i);
                proof {
                    assert(obs@ =~= orig.subrange(0, j + 1).filter(keep) + orig.subrange(
                        j + 1,
                        orig.len() as int,
                    ));
                }
            } else {
                i = i + 1;
                proof {
                    assert(obs@ =~= orig.subrange(0, j + 1).filter(keep) + orig.subrange(
                        j + 1,
                        orig.len() as int,
                    ));
                }
            }
            proof {
                j = j + 1;
            }
        }
        proof {
            assert(orig.subrange(j, orig.len() as int).len() == 0);
            assert(orig.subrange(0, j) =~= orig);
            assert(obs@ =~= orig.filter(keep));
        }
        *self = ConnectionRegistry { next_label, observers: obs };
    }

    /// Removes the observer labelled `label`, whose client disconnected.
    pub fn disconnect(&mut self, label: u64)
        ensures
            final(self)@ == survivors(old(self)@, seq![label]),
            final(self).next() == old(self).next(),
    {
        let gone = vec![label];
        assert(gone@ =~= seq![label]);
        self.evict(&gone);
    }
}

/// After a broadcast pass, no observer whose send failed is left to be sent
/// to on the next pass, and every other observer is still there.
pub proof fn lemma_failed_observers_evicted<T>(obs: Seq<Observer<T>>, failed: Seq<u64>)
    ensures
        forall|l: u64| #[trigger]
            failed.contains(l) ==> !labels(survivors(obs, failed)).contains(l),
        forall|k: int|
            0 <= k < obs.len() && !failed.contains(obs[k].label) ==> #[trigger] survivors(
                obs,
                failed,
            ).contains(obs[k]),
{
    broadcast use group_filter_ensures;

    let kept = survivors(obs, failed);
    assert forall|l: u64| #[trigger] failed.contains(l) implies !labels(kept).contains(l) by {
        if labels(kept).contains(l) {
            let k = choose|k: int| 0 <= k < labels(kept).len() && labels(kept)[k] == l;
            assert(kept[k].label == l);
        }
    }
}

} // verus!
