use vstd::prelude::*;
use vstd::string::StringExecFns;

verus! {

/// The arguments of one invocation: a map from argument name to the raw text
/// of its value. Values are never interpreted here; each node parses its own.
pub struct InvocationArgs {
    pub(crate) entries: Vec<(String, String)>,
    contents: Ghost<Map<Seq<char>, Seq<char>>>,
}

impl View for InvocationArgs {
    type V = Map<Seq<char>, Seq<char>>;

    closed spec fn view(&self) -> Map<Seq<char>, Seq<char>> {
        self.contents@
    }
}

impl InvocationArgs {
    /// Keys are unique, and the map holds exactly the stored pairs.
    pub closed spec fn wf(self) -> bool {
        &&& forall|i: int, j: int|
            0 <= i < j < self.entries@.len() ==> #[trigger] self.entries@[i].0@
                != #[trigger] self.entries@[j].0@
        &&& forall|i: int|
            0 <= i < self.entries@.len() ==> #[trigger] self.contents@.contains_key(
                self.entries@[i].0@,
            ) && self.contents@[self.entries@[i].0@] == self.entries@[i].1@
        &&& forall|k: Seq<char>|
            #[trigger] self.contents@.contains_key(k) ==> exists|i: int|
                0 <= i < self.entries@.len() && #[trigger] self.entries@[i].0@ == k
    }

    /// No arguments at all.
    pub fn new() -> (r: InvocationArgs)
        ensures
            r.wf(),
            r@ == Map::<Seq<char>, Seq<char>>::empty(),
    {
        InvocationArgs { entries: Vec::new(), contents: Ghost(Map::empty()) }
    }

    /// The position of `key` among the stored pairs, if it is stored.
    fn position(&self, key: &String) -> (r: Option<usize>)
        ensures
            match r {
                Some(i) => i < self.entries@.len() && self.entries@[i as int].0@ == key@,
                None => forall|i: int|
                    0 <= i < self.entries@.len() ==> #[trigger] self.entries@[i].0@ != key@,
            },
    {
        let mut i: usize = 0;
        while i < self.entries.len()
            invariant
                i <= self.entries@.len(),
                forall|j: int| 0 <= j < i ==> #[trigger] self.entries@[j].0@ != key@,
            decreases self.entries@.len() - i,
        {
            if self.entries[i].0.eq(key) {
                return Some(i);
            }
            i = i + 1;
        }
        None
    }

    /// Sets `key` to `value`, replacing an earlier value of the same key.
    pub fn insert(&mut self, key: String, value: String)
        requires
            old(self).wf(),
        ensures
            final(self).wf(),
            final(self)@ == old(self)@.insert(key@, value@),
    {
        let ghost old_map = self.contents@;
        let ghost k = key@;
        let ghost v = value@;
        match self.position(&key) {
            Some(i) => {
                let ghost before = self.entries@;
                self.entries.set(i, (key, value));
                self.contents = Ghost(old_map.insert(k, v));
                proof {
                    assert forall|a: int|
                        0 <= a < self.entries@.len() implies #[trigger] self.contents@.contains_key(
                        self.entries@[a].0@,
                    ) && self.contents@[self.entries@[a].0@] == self.entries@[a].1@ by {
                        if a != i {
                            assert(self.entries@[a] == before[a]);
                            if a < i {
                                assert(before[a].0@ != before[i as int].0@);
                            } else {
                                assert(before[i as int].0@ != before[a].0@);
                            }
                        }
                    }
                    assert forall|q: Seq<char>| #[trigger]
                        self.contents@.contains_key(q) implies exists|a: int|
                        0 <= a < self.entries@.len() && #[trigger] self.entries@[a].0@ == q by {
                        if q == k {
                            assert(self.entries@[i as int].0@ == q);
                        } else {
                            let a = choose|a: int|
                                0 <= a < before.len() && #[trigger] before[a].0@ == q;
                            assert(self.entries@[a].0@ == q);
                        }
                    }
                }
            },
            None => {
                let ghost before = self.entries@;
                self.entries.push((key, value));
                self.contents = Ghost(old_map.insert(k, v));
                proof {
                    let n = before.len() as int;
                    assert forall|a: int|
                        0 <= a < self.entries@.len() implies #[trigger] self.contents@.contains_key(
                        self.entries@[a].0@,
                    ) && self.contents@[self.entries@[a].0@] == self.entries@[a].1@ by {
                        if a != n {
                            assert(self.entries@[a] == before[a]);
                        }
                    }
                    assert forall|q: Seq<char>| #[trigger]
                        self.contents@.contains_key(q) implies exists|a: int|
                        0 <= a < self.entries@.len() && #[trigger] self.entries@[a].0@ == q by {
                        if q == k {
                            assert(self.entries@[n].0@ == q);
                        } else {
                            let a = choose|a: int|
                                0 <= a < before.len() && #[trigger] before[a].0@ == q;
                            assert(self.entries@[a].0@ == q);
                        }
                    }
                    assert forall|a: int, b: int|
                        0 <= a < b < self.entries@.len() implies #[trigger] self.entries@[a].0@
                        != #[trigger] self.entries@[b].0@ by {
                        if b < n {
                            assert(self.entries@[a] == before[a]);
                            assert(self.entries@[b] == before[b]);
                        } else {
                            assert(self.entries@[a] == before[a]);
                        }
                    }
                }
            },
        }
        assert(self@ =~= old_map.insert(k, v));
    }

    /// The value stored under `key`, if any.
    pub fn get(&self, key: &str) -> (r: Option<&String>)
        requires
            self.wf(),
        ensures
            match r {
                Some(v) => self@.contains_key(key@) && self@[key@] == v@,
                None => !self@.contains_key(key@),
            },
    {
        let owned = String::from_str(key);
        match self.position(&owned) {
            Some(i) => {
                assert(self.contents@.contains_key(self.entries@[i as int].0@));
                Some(&self.entries[i].1)
            },
            None => None,
        }
    }
}

} // verus!
