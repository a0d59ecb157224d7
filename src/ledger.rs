use vstd::prelude::*;

verus! {

/// The mapping that results from writing `entries` into an empty map in
/// order, a later entry for an address replacing an earlier one.
pub open spec fn seed_map(entries: Seq<(String, u64)>) -> Map<Seq<char>, u64>
    decreases entries.len(),
{
    if entries.len() == 0 {
        Map::empty()
    } else {
        let last = entries.last();
        seed_map(entries.drop_last()).insert(last.0@, last.1)
    }
}

/// `list` holds each key of `m` exactly once, each with its value in `m`.
pub open spec fn lists_exactly(list: Seq<(String, u64)>, m: Map<Seq<char>, u64>) -> bool {
    &&& forall|i: int, j: int|
        0 <= i < j < list.len() ==> (#[trigger] list[i]).0@ != (#[trigger] list[j]).0@
    &&& forall|i: int|
        0 <= i < list.len() ==> m.contains_key((#[trigger] list[i]).0@) && m[list[i].0@]
            == list[i].1
    &&& forall|k: Seq<char>|
        #[trigger] m.contains_key(k) ==> exists|i: int| 0 <= i < list.len() && list[i].0@ == k
}

/// The subscription ledger: each subscriber's address with the expiry of its
/// subscription, in seconds.
pub struct Ledger {
    entries: Vec<(String, u64)>,
    map: Ghost<Map<Seq<char>, u64>>,
}

impl View for Ledger {
    type V = Map<Seq<char>, u64>;

    closed spec fn view(&self) -> Map<Seq<char>, u64> {
        self.map@
    }
}

impl Ledger {
    /// Each address occurs once among the entries, and the entries are
    /// exactly the mapping.
    pub closed spec fn wf(&self) -> bool {
        lists_exactly(self.entries@, self.map@)
    }

    /// An empty ledger.
    pub fn new() -> (r: Ledger)
        ensures
            r.wf(),
            r@ == Map::<Seq<char>, u64>::empty(),
    {
        Ledger { entries: Vec::new(), map: Ghost(Map::empty()) }
    }

    /// The ledger that holds `entries`, a later entry for an address
    /// replacing an earlier one.
    pub fn from_entries(entries: &Vec<(String, u64)>) -> (r: Ledger)
        ensures
            r.wf(),
            r@ == seed_map(entries@),
    {
        let mut r = Ledger::new();
        let mut i: usize = 0;
        while i < entries.len()
            invariant
                i <= entries.len(),
                r.wf(),
                r@ == seed_map(entries@.subrange(0, i as int)),
            decreases entries.len() - i,
        {
            let (addr, expiry) = (entries[i].0.clone(), entries[i].1);
            r.insert(addr, expiry);
            proof {
                let s = entries@.subrange(0, i + 1);
                assert(s.drop_last() =~= entries@.subrange(0, i as int));
            }
            i = i + 1;
        }
        assert(entries@.subrange(0, entries@.len() as int) =~= entries@);
        r
    }

    /// The position of `addr` among the entries, if it has one.
    fn find(&self, addr: &str) -> (r: Option<usize>)
        requires
            self.wf(),
        ensures
            r is None ==> !self@.contains_key(addr@),
            r is Some ==> r->0 < self.entries@.len() && self.entries@[r->0 as int].0@ == addr@,
    {
        let target = addr.to_owned();
        let mut i: usize = 0;
        while i < self.entries.len()
            invariant
                i <= self.entries.len(),
                target@ == addr@,
                forall|j: int| 0 <= j < i ==> (#[trigger] self.entries@[j]).0@ != addr@,
            decreases self.entries.len() - i,
        {
            if self.entries[i].0 == target {
                return Some(i);
            }
            i = i + 1;
        }
        None
    }

    /// Whether `addr` has an entry.
    pub fn contains_key(&self, addr: &str) -> (r: bool)
        requires
            self.wf(),
        ensures
            r == self@.contains_key(addr@),
    {
        self.find(addr).is_some()
    }

    /// The expiry recorded for `addr`, if it has an entry.
    pub fn get(&self, addr: &str) -> (r: Option<u64>)
        requires
            self.wf(),
        ensures
            r == (if self@.contains_key(addr@) {
                Some(self@[addr@])
            } else {
                None::<u64>
            }),
    {
        match self.find(addr) {
            Some(i) => Some(self.entries[i].1),
            None => None,
        }
    }

    /// Records `expiry` for `addr`, replacing any earlier entry for it.
    pub fn insert(&mut self, addr: String, expiry: u64)
        requires
            old(self).wf(),
        ensures
            final(self).wf(),
            final(self)@ == old(self)@.insert(addr@, expiry),
    {
        let ghost key = addr@;
        match self.find(addr.as_str()) {
            Some(i) => {
                self.entries.set(i, (addr, expiry));
                self.map = Ghost(self.map@.insert(key, expiry));
                assert forall|k: Seq<char>| #[trigger] self.map@.contains_key(k) implies exists|
                    j: int,
                | 0 <= j < self.entries@.len() && self.entries@[j].0@ == k by {
                    if k != key {
                        let j = choose|j: int|
                            0 <= j < old(self).entries@.len() && old(self).entries@[j].0@ == k;
                        assert(self.entries@[j] == old(self).entries@[j]);
                    } else {
                        assert(self.entries@[i as int].0@ == k);
                    }
                }
            },
            None => {
                self.entries.push((addr, expiry));
                self.map = Ghost(self.map@.insert(key, expiry));
                assert forall|k: Seq<char>| #[trigger] self.map@.contains_key(k) implies exists|
                    j: int,
                | 0 <= j < self.entries@.len() && self.entries@[j].0@ == k by {
                    if k != key {
                        let j = choose|j: int|
                            0 <= j < old(self).entries@.len() && old(self).entries@[j].0@ == k;
                        assert(self.entries@[j] == old(self).entries@[j]);
                    } else {
                        let last = self.entries@.len() - 1;
                        assert(self.entries@[last].0@ == k);
                    }
                }
            },
        }
    }

    /// Deletes the entry of `addr`, if there is one.
    pub fn remove(&mut self, addr: &str)
        requires
            old(self).wf(),
        ensures
            final(self).wf(),
            final(self)@ == old(self)@.remove(addr@),
    {
        match self.find(addr) {
            Some(i) => {
                let _gone = self.entries.remove(i);
                self.map = Ghost(self.map@.remove(addr@));
                assert forall|k: Seq<char>| #[trigger] self.map@.contains_key(k) implies exists|
                    j: int,
                | 0 <= j < self.entries@.len() && self.entries@[j].0@ == k by {
                    let j = choose|j: int|
                        0 <= j < old(self).entries@.len() && old(self).entries@[j].0@ == k;
                    if j < i {
                        assert(self.entries@[j] == old(self).entries@[j]);
                    } else {
                        assert(j != i);
                        assert(self.entries@[j - 1] == old(self).entries@[j]);
                    }
                }
            },
            None => {
                assert(self.map@.remove(addr@) =~= self.map@);
            },
        }
    }

    /// Every entry, each address once with its expiry.
    pub fn snapshot(&self) -> (r: Vec<(String, u64)>)
        requires
            self.wf(),
        ensures
            lists_exactly(r@, self@),
    {
        let mut r: Vec<(String, u64)> = Vec::new();
        let mut i: usize = 0;
        while i < self.entries.len()
            invariant
                i <= self.entries.len(),
                self.wf(),
                r@.len() == i,
                forall|j: int|
                    0 <= j < i ==> (#[trigger] r@[j]).0@ == self.entries@[j].0@ && r@[j].1
                        == self.entries@[j].1,
            decreases self.entries.len() - i,
        {
            r.push((self.entries[i].0.clone(), self.entries[i].1));
            i = i + 1;
        }
        assert forall|k: Seq<char>| #[trigger] self@.contains_key(k) implies exists|j: int|
            0 <= j < r@.len() && r@[j].0@ == k by {
            let j = choose|j: int| 0 <= j < self.entries@.len() && self.entries@[j].0@ == k;
            assert(r@[j].0@ == k);
        }
        assert forall|a: int, b: int| 0 <= a < b < r@.len() implies (#[trigger] r@[a]).0@
            != (#[trigger] r@[b]).0@ by {
            assert(self.entries@[a].0@ != self.entries@[b].0@);
        }
        r
    }
}

} // verus!
