use vstd::prelude::*;
use vstd::string::StringExecFns;

verus! {

/// The per-browser session bag: each slot name maps to the serialised text
/// stored under it. Writes replace, reads report presence, removal of an absent
/// slot does nothing.
pub struct SessionStore {
    entries: Vec<(String, String)>,
    contents: Ghost<Map<Seq<char>, Seq<char>>>,
}

impl View for SessionStore {
    type V = Map<Seq<char>, Seq<char>>;

    closed spec fn view(&self) -> Map<Seq<char>, Seq<char>> {
        self.contents@
    }
}

impl SessionStore {
    /// The entries list and the ghost map agree, and no slot name repeats.
    pub closed spec fn wf(&self) -> bool {
        &&& forall|i: int, j: int|
            0 <= i < j < self.entries@.len() ==> self.entries@[i].0@ != self.entries@[j].0@
        &&& forall|i: int|
            0 <= i < self.entries@.len() ==> #[trigger] self.contents@.contains_key(
                self.entries@[i].0@,
            ) && self.contents@[self.entries@[i].0@] == self.entries@[i].1@
        &&& forall|k: Seq<char>|
            #[trigger] self.contents@.contains_key(k) ==> exists|i: int|
                0 <= i < self.entries@.len() && self.entries@[i].0@ == k
    }

    /// An empty session.
    pub fn new() -> (r: SessionStore)
        ensures
            r.wf(),
            r@ == Map::<Seq<char>, Seq<char>>::empty(),
    {
        SessionStore { entries: Vec::new(), contents: Ghost(Map::empty()) }
    }

    /// Every slot with its text, each slot once.
    pub fn entries(&self) -> (r: &Vec<(String, String)>)
        requires
            self.wf(),
        ensures
            forall|i: int, j: int| 0 <= i < j < r@.len() ==> r@[i].0@ != r@[j].0@,
            forall|i: int|
                0 <= i < r@.len() ==> #[trigger] self@.contains_key(r@[i].0@) && self@[r@[i].0@]
                    == r@[i].1@,
            forall|k: Seq<char>|
                #[trigger] self@.contains_key(k) ==> exists|i: int| 0 <= i < r@.len() && r@[i].0@ == k,
    {
        assert forall|i: int| 0 <= i < self.entries@.len() implies #[trigger] self@.contains_key(
            self.entries@[i].0@,
        ) && self@[self.entries@[i].0@] == self.entries@[i].1@ by {
            assert(self.contents@.contains_key(self.entries@[i].0@));
        }
        &self.entries
    }

    /// Where the slot `name` sits in the entries, if anywhere.
    fn position(&self, name: &String) -> (r: Option<usize>)
        requires
            self.wf(),
        ensures
            match r {
                Some(i) => i < self.entries@.len() && self.entries@[i as int].0@ == name@,
                None => !self@.contains_key(name@),
            },
    {
        let mut i: usize = 0;
        while i < self.entries.len()
            invariant
                self.wf(),
                i <= self.entries@.len(),
                forall|j: int| 0 <= j < i ==> self.entries@[j].0@ != name@,
            decreases self.entries@.len() - i,
        {
            if self.entries[i].0 == *name {
                return Some(i);
            }
            i = i + 1;
        }
        None
    }

    /// The text stored under `name`, if any.
    pub fn get(&self, name: &str) -> (r: Option<String>)
        requires
            self.wf(),
        ensures
            match r {
                Some(v) => self@.contains_key(name@) && v@ == self@[name@],
                None => !self@.contains_key(name@),
            },
    {
        let key = String::from_str(name);
        match self.position(&key) {
            Some(i) => {
                assert(self.contents@.contains_key(self.entries@[i as int].0@));
                Some(self.entries[i].1.clone())
            },
            None => None,
        }
    }

    /// Stores `value` under `name`, replacing what was there.
    pub fn insert(&mut self, name: &str, value: String)
        requires
            old(self).wf(),
        ensures
            final(self).wf(),
            final(self)@ == old(self)@.insert(name@, value@),
    {
        let key = String::from_str(name);
        let ghost new_contents = self@.insert(name@, value@);
        match self.position(&key) {
            Some(i) => {
                self.entries.set(i, (key, value));
                self.contents = Ghost(new_contents);
                assert forall|j: int| 0 <= j < self.entries@.len() implies #[trigger] self.contents@.contains_key(
                    self.entries@[j].0@) && self.contents@[self.entries@[j].0@] == self.entries@[j].1@ by {
                    if j != i {
                        assert(old(self).contents@.contains_key(old(self).entries@[j].0@));
                    }
                }
                assert forall|k: Seq<char>| #[trigger] self.contents@.contains_key(k) implies exists|j: int|
                    0 <= j < self.entries@.len() && self.entries@[j].0@ == k by {
                    if k != name@ {
                        let j = choose|j: int| 0 <= j < old(self).entries@.len() && old(self).entries@[j].0@ == k;
                        assert(self.entries@[j].0@ == k);
                    } else {
                        assert(self.entries@[i as int].0@ == k);
                    }
                }
            },
            None => {
                self.entries.push((key, value));
                self.contents = Ghost(new_contents);
                assert forall|j: int| 0 <= j < self.entries@.len() implies #[trigger] self.contents@.contains_key(
                    self.entries@[j].0@) && self.contents@[self.entries@[j].0@] == self.entries@[j].1@ by {
                    if j < old(self).entries@.len() {
                        assert(old(self).contents@.contains_key(old(self).entries@[j].0@));
                    }
                }
                assert forall|k: Seq<char>| #[trigger] self.contents@.contains_key(k) implies exists|j: int|
                    0 <= j < self.entries@.len() && self.entries@[j].0@ == k by {
                    if k != name@ {
                        let j = choose|j: int| 0 <= j < old(self).entries@.len() && old(self).entries@[j].0@ == k;
                        assert(self.entries@[j].0@ == k);
                    } else {
                        assert(self.entries@[old(self).entries@.len() as int].0@ == k);
                    }
                }
            },
        }
    }

    /// Deletes the slot `name`, handing back the text it held.
    pub fn remove(&mut self, name: &str) -> (r: Option<String>)
        requires
            old(self).wf(),
        ensures
            final(self).wf(),
            final(self)@ == old(self)@.remove(name@),
            match r {
                Some(v) => old(self)@.contains_key(name@) && v@ == old(self)@[name@],
                None => !old(self)@.contains_key(name@),
            },
    {
        let key = String::from_str(name);
        match self.position(&key) {
            Some(i) => {
                let ghost new_contents = self@.remove(name@);
                assert(old(self).contents@.contains_key(old(self).entries@[i as int].0@));
                let entry = self.entries.remove(i);
                let v = entry.1;
                assert(v@ == old(self)@[name@]);
                self.contents = Ghost(new_contents);
                assert forall|j: int| 0 <= j < self.entries@.len() implies #[trigger] self.contents@.contains_key(
                    self.entries@[j].0@) && self.contents@[self.entries@[j].0@] == self.entries@[j].1@ by {
                    if j < i {
                        assert(old(self).contents@.contains_key(old(self).entries@[j].0@));
                    } else {
                        assert(old(self).contents@.contains_key(old(self).entries@[j + 1].0@));
                    }
                }
                assert forall|k: Seq<char>| #[trigger] self.contents@.contains_key(k) implies exists|j: int|
                    0 <= j < self.entries@.len() && self.entries@[j].0@ == k by {
                    let j = choose|j: int| 0 <= j < old(self).entries@.len() && old(self).entries@[j].0@ == k;
                    if j < i {
                        assert(self.entries@[j].0@ == k);
                    } else {
                        assert(self.entries@[j - 1].0@ == k);
                    }
                }
                Some(v)
            },
            None => {
                assert(self@.remove(name@) =~= self@);
                None
            },
        }
    }
}

} // verus!
