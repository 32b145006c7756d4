//! The incidents a monitor currently has open, keyed by what each incident is about.
use vstd::prelude::*;

verus! {

/// A key under which a monitor tracks an open incident.
pub trait IncidentKey: Sized {
    /// The batch an incident under this key is about; zero for a
    /// component-wide (catch-all) incident.
    spec fn batch_of(self) -> u64;

    /// The key of the component-wide (catch-all) incident.
    spec fn catch_all() -> Self;

    /// Whether two keys are the same key.
    fn same_key(&self, other: &Self) -> (r: bool)
        ensures
            r == (*self == *other);

    /// The batch an incident under this key is about.
    fn batch(&self) -> (r: u64)
        ensures
            r == self.batch_of();

    /// A copy of the key.
    fn copy_key(&self) -> (r: Self)
        ensures
            r == *self;

    /// The key of the component-wide (catch-all) incident.
    fn catch_all_key() -> (r: Self)
        ensures
            r == Self::catch_all(),
            r.batch_of() == 0;
}

/// The single incident of a whole component.
impl IncidentKey for () {
    open spec fn batch_of(self) -> u64 {
        0
    }

    open spec fn catch_all() -> Self {
        ()
    }

    fn same_key(&self, other: &Self) -> (r: bool) {
        true
    }

    fn batch(&self) -> (r: u64) {
        0
    }

    fn copy_key(&self) -> (r: Self) {
        ()
    }

    fn catch_all_key() -> (r: Self) {
        ()
    }
}

/// An incident about one batch, keyed by batch id; zero is the catch-all.
impl IncidentKey for u64 {
    open spec fn batch_of(self) -> u64 {
        self
    }

    open spec fn catch_all() -> Self {
        0
    }

    fn same_key(&self, other: &Self) -> (r: bool) {
        *self == *other
    }

    fn batch(&self) -> (r: u64) {
        *self
    }

    fn copy_key(&self) -> (r: Self) {
        *self
    }

    fn catch_all_key() -> (r: Self) {
        0
    }
}

/// An incident about one batch, keyed by `(l1_block_number, batch_id)`;
/// `(0, 0)` is the catch-all.
impl IncidentKey for (u64, u64) {
    open spec fn batch_of(self) -> u64 {
        self.1
    }

    open spec fn catch_all() -> Self {
        (0, 0)
    }

    fn same_key(&self, other: &Self) -> (r: bool) {
        self.0 == other.0 && self.1 == other.1
    }

    fn batch(&self) -> (r: u64) {
        self.1
    }

    fn copy_key(&self) -> (r: Self) {
        (self.0, self.1)
    }

    fn catch_all_key() -> (r: Self) {
        (0, 0)
    }
}

/// Open incidents, each under its own key, with the status-page incident id.
///
/// The incidents are kept as a list of distinct keys rather than a hash map:
/// the keys include pairs and the unit key, for which vstd gives no hash-map
/// key model, and a list fixes the order in which open incidents are walked.
pub struct ActiveIncidents<K> {
    entries: Vec<(K, String)>,
}

impl<K: IncidentKey> ActiveIncidents<K> {
    /// The keys and incident ids, in the order the incidents were recorded.
    pub closed spec fn entries(&self) -> Seq<(K, Seq<char>)> {
        self.entries@.map_values(|e: (K, String)| (e.0, e.1@))
    }

    /// Whether an incident is open under `k`.
    pub open spec fn has(&self, k: K) -> bool {
        exists|i: int| 0 <= i < self.entries().len() && self.entries()[i].0 == k
    }

    /// The open incidents as a map from key to incident id.
    pub open spec fn view(&self) -> Map<K, Seq<char>> {
        Map::new(
            |k: K| self.has(k),
            |k: K|
                self.entries()[choose|i: int|
                    0 <= i < self.entries().len() && self.entries()[i].0 == k].1,
        )
    }

    /// No key appears twice.
    pub open spec fn wf(&self) -> bool {
        forall|i: int, j: int|
            0 <= i < self.entries().len() && 0 <= j < self.entries().len() && i != j
                ==> self.entries()[i].0 != self.entries()[j].0
    }

    proof fn lemma_lookup(&self, i: int)
        requires
            self.wf(),
            0 <= i < self.entries().len(),
        ensures
            self.view().dom().contains(self.entries()[i].0),
            self.view()[self.entries()[i].0] == self.entries()[i].1,
    {
        let k = self.entries()[i].0;
        assert(self.has(k));
        let j = choose|j: int| 0 <= j < self.entries().len() && self.entries()[j].0 == k;
        assert(j == i);
    }

    /// No incidents.
    pub fn new() -> (r: Self)
        ensures
            r.wf(),
            r.view() == Map::<K, Seq<char>>::empty(),
    {
        let r = ActiveIncidents { entries: Vec::new() };
        proof {
            assert(r.view() =~= Map::<K, Seq<char>>::empty());
        }
        r
    }

    /// Number of open incidents.
    pub fn len(&self) -> (r: usize)
        requires
            self.wf(),
        ensures
            r == self.view().len(),
    {
        proof {
            self.lemma_len();
        }
        self.entries.len()
    }

    proof fn lemma_len(&self)
        requires
            self.wf(),
        ensures
            self.view().len() == self.entries().len(),
            self.view().dom().finite(),
    {
        let keys = self.entries().map_values(|e: (K, Seq<char>)| e.0);
        assert(keys.no_duplicates()) by {
            assert forall|i: int, j: int| 0 <= i < keys.len() && 0 <= j < keys.len() && i != j
                implies keys[i] != keys[j] by {}
        }
        assert(self.view().dom() =~= keys.to_set()) by {
            assert forall|k: K| self.view().dom().contains(k) implies keys.to_set().contains(k) by {
                let i = choose|i: int| 0 <= i < self.entries().len() && self.entries()[i].0 == k;
                assert(keys[i] == k);
            }
            assert forall|k: K| keys.to_set().contains(k) implies self.view().dom().contains(k) by {
                let i = choose|i: int| 0 <= i < keys.len() && keys[i] == k;
                assert(self.entries()[i].0 == k);
            }
        }
        keys.unique_seq_to_set();
    }

    /// Whether no incident is open.
    pub fn is_empty(&self) -> (r: bool)
        requires
            self.wf(),
        ensures
            r == (self.view() == Map::<K, Seq<char>>::empty()),
    {
        proof {
            self.lemma_len();
            if self.entries().len() > 0 {
                self.lemma_lookup(0);
                assert(self.view().dom().contains(self.entries()[0].0));
            } else {
                assert(self.view() =~= Map::<K, Seq<char>>::empty());
            }
        }
        self.entries.len() == 0
    }

    fn find(&self, k: &K) -> (r: Option<usize>)
        requires
            self.wf(),
        ensures
            match r {
                Some(i) => i < self.entries().len() && self.entries()[i as int].0 == *k,
                None => !self.has(*k),
            },
    {
        let mut i: usize = 0;
        while i < self.entries.len()
            invariant
                i <= self.entries@.len(),
                forall|j: int| 0 <= j < i ==> self.entries()[j].0 != *k,
            decreases self.entries@.len() - i,
        {
            if self.entries[i].0.same_key(k) {
                return Some(i);
            }
            i = i + 1;
        }
        None
    }

    /// Whether an incident is open under `k`.
    pub fn contains_key(&self, k: &K) -> (r: bool)
        requires
            self.wf(),
        ensures
            r == self.view().dom().contains(*k),
    {
        self.find(k).is_some()
    }

    /// The incident id open under `k`, if any.
    pub fn get(&self, k: &K) -> (r: Option<String>)
        requires
            self.wf(),
        ensures
            match r {
                Some(id) => self.view().dom().contains(*k) && id@ == self.view()[*k],
                None => !self.view().dom().contains(*k),
            },
    {
        match self.find(k) {
            Some(i) => {
                proof {
                    self.lemma_lookup(i as int);
                }
                Some(self.entries[i].1.clone())
            },
            None => None,
        }
    }

    /// Records incident `id` under `k`, replacing the id recorded there before.
    pub fn insert(&mut self, k: K, id: String)
        requires
            old(self).wf(),
        ensures
            final(self).wf(),
            final(self).view() == old(self).view().insert(k, id@),
    {
        let ghost prev = self.view();
        match self.find(&k) {
            Some(i) => {
                self.entries.set(i, (k, id));
                proof {
                    assert(self.entries() =~= old(self).entries().update(i as int, (k, id@)));
                    assert forall|kk: K| #[trigger] self.has(kk) == prev.insert(k, id@).dom().contains(kk) by {
                        if old(self).has(kk) {
                            let j = choose|j: int| 0 <= j < old(self).entries().len() && old(self).entries()[j].0 == kk;
                            assert(self.entries()[j].0 == kk);
                        }
                        if self.has(kk) {
                            let j = choose|j: int| 0 <= j < self.entries().len() && self.entries()[j].0 == kk;
                            if j != i {
                                assert(old(self).entries()[j].0 == kk);
                            }
                        }
                    }
                    assert forall|kk: K| self.view().dom().contains(kk) implies self.view()[kk] == prev.insert(k, id@)[kk] by {
                        let j = choose|j: int| 0 <= j < self.entries().len() && self.entries()[j].0 == kk;
                        self.lemma_lookup(j);
                        if j != i {
                            old(self).lemma_lookup(j);
                        }
                    }
                    assert(self.view() =~= prev.insert(k, id@));
                }
            },
            None => {
                self.entries.push((k, id));
                proof {
                    let n = old(self).entries().len();
                    assert(self.entries() =~= old(self).entries().push((k, id@)));
                    assert forall|kk: K| #[trigger] self.has(kk) == prev.insert(k, id@).dom().contains(kk) by {
                        if old(self).has(kk) {
                            let j = choose|j: int| 0 <= j < old(self).entries().len() && old(self).entries()[j].0 == kk;
                            assert(self.entries()[j].0 == kk);
                        }
                        if kk == k {
                            assert(self.entries()[n as int].0 == kk);
                        }
                        if self.has(kk) {
                            let j = choose|j: int| 0 <= j < self.entries().len() && self.entries()[j].0 == kk;
                            if j != n {
                                assert(old(self).entries()[j].0 == kk);
                            }
                        }
                    }
                    assert forall|kk: K| self.view().dom().contains(kk) implies self.view()[kk] == prev.insert(k, id@)[kk] by {
                        let j = choose|j: int| 0 <= j < self.entries().len() && self.entries()[j].0 == kk;
                        self.lemma_lookup(j);
                        if j != n {
                            old(self).lemma_lookup(j);
                        }
                    }
                    assert(self.view() =~= prev.insert(k, id@));
                }
            },
        }
    }

    /// Forgets the incident open under `k`, if any.
    pub fn remove(&mut self, k: &K)
        requires
            old(self).wf(),
        ensures
            final(self).wf(),
            final(self).view() == old(self).view().remove(*k),
    {
        let ghost prev = self.view();
        match self.find(k) {
            Some(i) => {
                self.entries.remove(i);
                proof {
                    let o = old(self).entries();
                    assert(self.entries() =~= o.subrange(0, i as int) + o.subrange(i + 1, o.len() as int));
                    assert forall|j: int| 0 <= j < self.entries().len() implies #[trigger] self.entries()[j]
                        == o[if j < i { j } else { j + 1 }] by {}
                    assert forall|kk: K| #[trigger] self.has(kk) == prev.remove(*k).dom().contains(kk) by {
                        if self.has(kk) {
                            let j = choose|j: int| 0 <= j < self.entries().len() && self.entries()[j].0 == kk;
                            let jj = if j < i { j } else { j + 1 };
                            assert(o[jj].0 == kk);
                        }
                        if old(self).has(kk) && kk != *k {
                            let j = choose|j: int| 0 <= j < o.len() && o[j].0 == kk;
                            let jj = if j < i { j } else { j - 1 };
                            assert(self.entries()[jj].0 == kk);
                        }
                    }
                    assert forall|kk: K| self.view().dom().contains(kk) implies self.view()[kk] == prev.remove(*k)[kk] by {
                        let j = choose|j: int| 0 <= j < self.entries().len() && self.entries()[j].0 == kk;
                        self.lemma_lookup(j);
                        old(self).lemma_lookup(if j < i { j } else { j + 1 });
                    }
                    assert(self.view() =~= prev.remove(*k));
                }
            },
            None => {
                proof {
                    assert(self.view() =~= prev.remove(*k));
                }
            },
        }
    }

    /// The keys and incident ids, in the order the incidents were recorded.
    pub fn snapshot(&self) -> (r: Vec<(K, String)>)
        ensures
            r@.map_values(|e: (K, String)| (e.0, e.1@)) == self.entries(),
    {
        let mut out: Vec<(K, String)> = Vec::new();
        let mut i: usize = 0;
        while i < self.entries.len()
            invariant
                i <= self.entries@.len(),
                out@.map_values(|e: (K, String)| (e.0, e.1@)) == self.entries().subrange(0, i as int),
            decreases self.entries@.len() - i,
        {
            let k = self.entries[i].0.copy_key();
            let id = self.entries[i].1.clone();
            let ghost before = out@;
            out.push((k, id));
            proof {
                assert(self.entries()[i as int] == (k, id@));
                assert(out@ == before.push((k, id)));
                let f = |e: (K, String)| (e.0, e.1@);
                assert(out@.map_values(f) =~= before.map_values(f).push((k, id@)));
                assert(out@.map_values(|e: (K, String)| (e.0, e.1@)) =~= self.entries().subrange(0, i + 1));
            }
            i = i + 1;
        }
        proof {
            assert(self.entries().subrange(0, self.entries@.len() as int) =~= self.entries());
        }
        out
    }

    /// Returns `true` if the only open incident is the catch-all one.
    pub fn catch_all_only(&self) -> (r: bool)
        requires
            self.wf(),
        ensures
            r == (self.view().len() == 1 && self.view().dom().contains(K::catch_all())),
    {
        let key = K::catch_all_key();
        self.len() == 1 && self.contains_key(&key)
    }
}

} // verus!
